//! Fixed-point vector arithmetic.

use desk_ball::math::Vec2;

#[test]
fn componentwise_add_sub_neg() {
    let a = Vec2::new(3, -4);
    let b = Vec2::new(10, 20);
    assert_eq!(a.add(b), Vec2::new(13, 16));
    assert_eq!(a.sub(b), Vec2::new(-7, -24));
    assert_eq!(a.neg(), Vec2::new(-3, 4));
}

#[test]
fn scale_truncates_toward_zero() {
    // 3 * 0.5 = 1.5 and -3 * 0.5 = -1.5 both truncate toward zero,
    // matching a float-to-integer cast of the real product.
    let half = 500_000;
    assert_eq!(Vec2::new(3, -3).scale(half), Vec2::new(1, -1));
    assert_eq!(Vec2::new(4, -4).scale(half), Vec2::new(2, -2));
    assert_eq!(Vec2::new(1_000_000, -2_000_000).scale(250_000), Vec2::new(250_000, -500_000));
}

#[test]
fn scale_by_whole_units_is_exact() {
    let two = 2_000_000;
    assert_eq!(Vec2::new(123, -456).scale(two), Vec2::new(246, -912));
}

#[test]
fn squared_length() {
    assert_eq!(Vec2::new(3, 4).len_sq(), 25);
    assert_eq!(Vec2::new(-3, 4).len_sq(), 25);
    assert_eq!(Vec2::zero().len_sq(), 0);
    assert_eq!(Vec2::new(1_000_000, 0).len_sq(), 1_000_000_000_000);
}
