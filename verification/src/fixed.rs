//! Fixed-point arithmetic over `i64`.
//!
//! A quantity is stored as an integer count of units, with [`FP`] units
//! per whole pixel, second, or meter. Products of two fixed-point
//! quantities are rescaled by `FP` with truncation toward zero, the
//! same rounding direction as an `as`-cast of the real-valued product.

use vstd::prelude::*;

verus! {

/// Units per whole pixel, second, or meter.
pub const FP: i64 = 1_000_000;

/// Division truncated toward zero, for a positive divisor.
pub open spec fn tdiv(a: int, d: int) -> int {
    if a >= 0 {
        a / d
    } else {
        -((-a) / d)
    }
}

/// The fixed-point product: `a * b / FP`, truncated toward zero.
pub open spec fn fp_mul_spec(a: int, b: int) -> int {
    tdiv(a * b, FP as int)
}

/// A square is nonnegative and grows with the magnitude of its root.
pub proof fn lemma_square_bound(a: int, m: int)
    requires
        -m <= a <= m,
    ensures
        0 <= a * a <= m * m,
{
    assert(0 <= a * a <= m * m) by (nonlinear_arith)
        requires
            -m <= a <= m,
    ;
}

/// Truncating division keeps the dividend's sign and shrinks magnitude:
/// a dividend within `[-am, am]` divides to within `[-tdiv(am, d), tdiv(am, d)]`.
pub proof fn lemma_tdiv_mag(a: int, am: int, d: int)
    requires
        d >= 1,
        -am <= a <= am,
    ensures
        -tdiv(am, d) <= tdiv(a, d) <= tdiv(am, d),
        tdiv(am, d) == am / d,
{
    if a >= 0 {
        vstd::arithmetic::div_mod::lemma_div_pos_is_pos(a, d);
        vstd::arithmetic::div_mod::lemma_div_is_ordered(a, am, d);
    } else {
        vstd::arithmetic::div_mod::lemma_div_pos_is_pos(-a, d);
        vstd::arithmetic::div_mod::lemma_div_is_ordered(-a, am, d);
    }
}

/// Magnitude bound for the fixed-point product: factors within
/// `[-am, am]` and `[-bm, bm]` multiply to within
/// `[-tdiv(am * bm, FP), tdiv(am * bm, FP)]`.
pub proof fn lemma_fp_mul_bound(a: int, b: int, am: int, bm: int)
    requires
        -am <= a <= am,
        -bm <= b <= bm,
    ensures
        -tdiv(am * bm, FP as int) <= fp_mul_spec(a, b) <= tdiv(am * bm, FP as int),
        tdiv(am * bm, FP as int) == (am * bm) / (FP as int),
{
    assert(-(am * bm) <= a * b <= am * bm) by (nonlinear_arith)
        requires
            -am <= a <= am,
            -bm <= b <= bm,
    ;
    lemma_tdiv_mag(a * b, am * bm, FP as int);
}

/// Computes the fixed-point product of `a` and `b`.
pub fn fp_mul(a: i64, b: i64) -> (r: i64)
    requires
        i64::MIN <= fp_mul_spec(a as int, b as int) <= i64::MAX,
    ensures
        r == fp_mul_spec(a as int, b as int),
{
    let p: i128 = (a as i128) * (b as i128);
    let q: i128 = if p >= 0 {
        p / (FP as i128)
    } else {
        -((-p) / (FP as i128))
    };
    q as i64
}

} // verus!
