//! Planar vectors in fixed-point coordinates.
//!
//! [`Vec2`] is the executable value type; [`V2`] is its mathematical
//! model with unbounded integer components, used by every contract.

use vstd::prelude::*;

use crate::fixed::{fp_mul, fp_mul_spec, FP};

verus! {

/// The mathematical model of a planar vector: unbounded components.
pub ghost struct V2 {
    pub x: int,
    pub y: int,
}

/// Componentwise sum.
pub open spec fn v2_add(a: V2, b: V2) -> V2 {
    V2 { x: a.x + b.x, y: a.y + b.y }
}

/// Componentwise difference.
pub open spec fn v2_sub(a: V2, b: V2) -> V2 {
    V2 { x: a.x - b.x, y: a.y - b.y }
}

/// Componentwise negation.
pub open spec fn v2_neg(a: V2) -> V2 {
    V2 { x: -a.x, y: -a.y }
}

/// Componentwise fixed-point scaling by `k`.
pub open spec fn v2_scale(a: V2, k: int) -> V2 {
    V2 { x: fp_mul_spec(a.x, k), y: fp_mul_spec(a.y, k) }
}

/// Both components lie in `[-m, m]`.
pub open spec fn in_range(a: V2, m: int) -> bool {
    &&& -m <= a.x <= m
    &&& -m <= a.y <= m
}

/// Squared Euclidean length, in squared units.
pub open spec fn len_sq_spec(a: V2) -> int {
    a.x * a.x + a.y * a.y
}

/// A planar vector of fixed-point coordinates ([`FP`] units per pixel).
#[derive(Clone, Copy, Debug, PartialEq, Eq, Structural)]
pub struct Vec2 {
    pub x: i64,
    pub y: i64,
}

impl View for Vec2 {
    type V = V2;

    open spec fn view(&self) -> V2 {
        V2 { x: self.x as int, y: self.y as int }
    }
}

impl Vec2 {
    /// Builds the vector `(x, y)`.
    pub fn new(x: i64, y: i64) -> (r: Self)
        ensures
            r@ == (V2 { x: x as int, y: y as int }),
    {
        Vec2 { x, y }
    }

    /// The zero vector.
    pub fn zero() -> (r: Self)
        ensures
            r@ == (V2 { x: 0, y: 0 }),
    {
        Vec2 { x: 0, y: 0 }
    }

    /// Componentwise sum.
    pub fn add(self, rhs: Self) -> (r: Self)
        requires
            i64::MIN <= self@.x + rhs@.x <= i64::MAX,
            i64::MIN <= self@.y + rhs@.y <= i64::MAX,
        ensures
            r@ == v2_add(self@, rhs@),
    {
        Vec2 { x: self.x + rhs.x, y: self.y + rhs.y }
    }

    /// Componentwise difference.
    pub fn sub(self, rhs: Self) -> (r: Self)
        requires
            i64::MIN <= self@.x - rhs@.x <= i64::MAX,
            i64::MIN <= self@.y - rhs@.y <= i64::MAX,
        ensures
            r@ == v2_sub(self@, rhs@),
    {
        Vec2 { x: self.x - rhs.x, y: self.y - rhs.y }
    }

    /// Componentwise negation.
    pub fn neg(self) -> (r: Self)
        requires
            self@.x > i64::MIN,
            self@.y > i64::MIN,
        ensures
            r@ == v2_neg(self@),
    {
        Vec2 { x: -self.x, y: -self.y }
    }

    /// Componentwise fixed-point scaling by `k`.
    pub fn scale(self, k: i64) -> (r: Self)
        requires
            i64::MIN <= fp_mul_spec(self@.x, k as int) <= i64::MAX,
            i64::MIN <= fp_mul_spec(self@.y, k as int) <= i64::MAX,
        ensures
            r@ == v2_scale(self@, k as int),
    {
        Vec2 { x: fp_mul(self.x, k), y: fp_mul(self.y, k) }
    }

    /// Squared Euclidean length, in squared units.
    ///
    /// Comparing it against a squared threshold decides the same
    /// predicate as comparing the real length against the threshold.
    pub fn len_sq(self) -> (r: i128)
        requires
            in_range(self@, 0x4000_0000_0000_0000),
        ensures
            r == len_sq_spec(self@),
    {
        proof {
            crate::fixed::lemma_square_bound(self@.x, 0x4000_0000_0000_0000);
            crate::fixed::lemma_square_bound(self@.y, 0x4000_0000_0000_0000);
        }
        (self.x as i128) * (self.x as i128) + (self.y as i128) * (self.y as i128)
    }
}

} // verus!
