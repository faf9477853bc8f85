//! Rotations, held as the point of the unit circle that the angle leads to.
//!
//! Keeping the cosine and the sine instead of the angle lets rotations be
//! composed, inverted and read off a pair of points with integer arithmetic
//! alone.
use crate::geometry::Point;
use crate::scalar::{
    abs_int, add_sat, diff, floor_sqrt, is_floor_sqrt, isqrt, lemma_floor_sqrt_exists, mul_fixed,
    neg, neg_sat, prod, sub_sat, sum, trunc_div, Scalar, ONE,
};
use vstd::prelude::*;

verus! {

/// A rotation about the origin, given by the cosine and sine of its angle.
#[derive(Clone, Copy, Debug, PartialEq, Eq, Structural)]
pub struct Rotation {
    pub cos: Scalar,
    pub sin: Scalar,
}

impl Rotation {
    /// The rotation by no angle at all.
    pub open spec fn zero() -> Rotation {
        Rotation { cos: ONE, sin: 0 }
    }

    /// This rotation followed by `other`: the angles add.
    pub open spec fn followed_by(self, other: Rotation) -> Rotation {
        Rotation {
            cos: diff(prod(self.cos, other.cos), prod(self.sin, other.sin)),
            sin: sum(prod(self.sin, other.cos), prod(self.cos, other.sin)),
        }
    }

    /// The rotation by the opposite angle.
    pub open spec fn reversed(self) -> Rotation {
        Rotation { cos: self.cos, sin: neg(self.sin) }
    }

    /// The length of the vector from the origin to `p`, rounded down, exact.
    pub open spec fn length(p: Point) -> int {
        floor_sqrt(p.x * p.x + p.y * p.y)
    }

    /// The rotation that turns the positive x axis towards `p`. The origin
    /// itself points nowhere and gives the rotation by no angle.
    pub open spec fn towards(p: Point) -> Rotation {
        if p.x == 0 && p.y == 0 {
            Rotation::zero()
        } else {
            Rotation {
                cos: trunc_div(p.x * ONE, Rotation::length(p)) as i64,
                sin: trunc_div(p.y * ONE, Rotation::length(p)) as i64,
            }
        }
    }

    /// The rotation that turns the direction of `from` into the direction of
    /// `to`, both seen from the origin.
    pub open spec fn from_to(from: Point, to: Point) -> Rotation {
        Rotation::towards(to).followed_by(Rotation::towards(from).reversed())
    }

    /// The rotation by no angle at all.
    pub fn identity() -> (r: Rotation)
        ensures
            r == Rotation::zero(),
    {
        Rotation { cos: ONE, sin: 0 }
    }

    /// The rotation with the given cosine and sine.
    pub fn new(cos: Scalar, sin: Scalar) -> (r: Rotation)
        ensures
            r == (Rotation { cos, sin }),
    {
        Rotation { cos, sin }
    }

    /// This rotation followed by `other`.
    pub fn compose(&self, other: &Rotation) -> (r: Rotation)
        ensures
            r == self.followed_by(*other),
    {
        Rotation {
            cos: sub_sat(mul_fixed(self.cos, other.cos), mul_fixed(self.sin, other.sin)),
            sin: add_sat(mul_fixed(self.sin, other.cos), mul_fixed(self.cos, other.sin)),
        }
    }

    /// The rotation by the opposite angle.
    pub fn inverse(&self) -> (r: Rotation)
        ensures
            r == self.reversed(),
    {
        Rotation { cos: self.cos, sin: neg_sat(self.sin) }
    }

    /// The rotation that turns the positive x axis towards `p`.
    pub fn toward(p: &Point) -> (r: Rotation)
        ensures
            r == Rotation::towards(*p),
    {
        if p.x == 0 && p.y == 0 {
            return Rotation { cos: ONE, sin: 0 };
        }
        proof {
            reveal(trunc_div);
        }
        let mx: u128 = if p.x < 0 {
            (-(p.x as i128)) as u128
        } else {
            p.x as u128
        };
        let my: u128 = if p.y < 0 {
            (-(p.y as i128)) as u128
        } else {
            p.y as u128
        };
        let limit: u128 = 0x8000_0000_0000_0000u128;
        assert(mx * mx + my * my <= 2 * (limit * limit) && mx * mx + my * my >= 1 && mx * mx
            == p.x * p.x && my * my == p.y * p.y && mx * mx >= 0 && my * my >= 0)
            by (nonlinear_arith)
            requires
                0 <= mx <= limit,
                0 <= my <= limit,
                mx == abs_int(p.x as int),
                my == abs_int(p.y as int),
                mx > 0 || my > 0,
        ;
        let n: u128 = mx * mx + my * my;
        let len: u64 = isqrt(n);
        proof {
            lemma_floor_sqrt_exists(n as nat);
            let l = len as int;
            assert(is_floor_sqrt(n as int, l));
            // the length is at least one and at least each coordinate's size
            assert(l >= 1 && l >= mx && l >= my) by (nonlinear_arith)
                requires
                    l >= 0,
                    n < (l + 1) * (l + 1),
                    n == mx * mx + my * my,
                    n >= 1,
                    mx >= 0,
                    my >= 0,
            ;
            assert((mx * 1_000_000) / (l as int) <= 1_000_000 && (my * 1_000_000) / (l as int)
                <= 1_000_000 && (mx * 1_000_000) / (l as int) >= 0 && (my * 1_000_000) / (
            l as int) >= 0) by (nonlinear_arith)
                requires
                    l >= 1,
                    0 <= mx <= l,
                    0 <= my <= l,
            ;
        }
        let cx: u128 = (mx * 1_000_000u128) / (len as u128);
        let cy: u128 = (my * 1_000_000u128) / (len as u128);
        Rotation {
            cos: if p.x < 0 {
                -(cx as i64)
            } else {
                cx as i64
            },
            sin: if p.y < 0 {
                -(cy as i64)
            } else {
                cy as i64
            },
        }
    }

    /// The rotation that turns the direction of `from` into the direction of `to`.
    pub fn between(from: &Point, to: &Point) -> (r: Rotation)
        ensures
            r == Rotation::from_to(*from, *to),
    {
        let start = Rotation::toward(from);
        let end = Rotation::toward(to);
        end.compose(&start.inverse())
    }
}

} // verus!
