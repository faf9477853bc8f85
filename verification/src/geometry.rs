//! Points and axis-aligned bounding boxes.
use crate::scalar::{
    abs_int, add_sat, clamp, diff, floor_sqrt, greater, half, halve, isqrt,
    lemma_floor_sqrt_monotone, lemma_floor_sqrt_unique, lesser, max_of, min_of, mul_fixed, prod,
    sub_sat, sum, Scalar,
};
use vstd::prelude::*;

verus! {

/// A 2D coordinate.
#[derive(Clone, Copy, Debug, PartialEq, Eq, Structural)]
pub struct Point {
    pub x: Scalar,
    pub y: Scalar,
}

impl Point {
    /// The sum of the two points, coordinate by coordinate.
    pub open spec fn added(self, other: Point) -> Point {
        Point { x: sum(self.x, other.x), y: sum(self.y, other.y) }
    }

    /// The difference of the two points, coordinate by coordinate.
    pub open spec fn subtracted(self, other: Point) -> Point {
        Point { x: diff(self.x, other.x), y: diff(self.y, other.y) }
    }

    /// The point with both coordinates multiplied by `factor`.
    pub open spec fn scaled(self, factor: Scalar) -> Point {
        Point { x: prod(self.x, factor), y: prod(self.y, factor) }
    }

    /// The square of the Euclidean distance between the two points, exact.
    pub open spec fn distance_squared(self, other: Point) -> int {
        (self.x - other.x) * (self.x - other.x) + (self.y - other.y) * (self.y - other.y)
    }

    /// The Euclidean distance between the two points, rounded down, saturating.
    pub open spec fn distance(self, other: Point) -> Scalar {
        clamp(floor_sqrt(self.distance_squared(other)))
    }

    pub fn new(x: Scalar, y: Scalar) -> (p: Point)
        ensures
            p == (Point { x, y }),
    {
        Point { x, y }
    }

    pub fn x(&self) -> (r: Scalar)
        ensures
            r == self.x,
    {
        self.x
    }

    pub fn y(&self) -> (r: Scalar)
        ensures
            r == self.y,
    {
        self.y
    }

    pub fn set_x(&mut self, x: Scalar)
        ensures
            *final(self) == (Point { x, y: old(self).y }),
    {
        self.x = x;
    }

    pub fn set_y(&mut self, y: Scalar)
        ensures
            *final(self) == (Point { x: old(self).x, y }),
    {
        self.y = y;
    }

    /// The Euclidean distance to `other`.
    pub fn distance_to(&self, other: &Point) -> (r: Scalar)
        ensures
            r == self.distance(*other),
    {
        let dx: i128 = self.x as i128 - other.x as i128;
        let dy: i128 = self.y as i128 - other.y as i128;
        let mx: u128 = if dx < 0 {
            (-dx) as u128
        } else {
            dx as u128
        };
        let my: u128 = if dy < 0 {
            (-dy) as u128
        } else {
            dy as u128
        };
        let limit: u128 = 0x8000_0000_0000_0000u128;
        proof {
            let n = self.distance_squared(*other);
            assert(mx * mx == (self.x - other.x) * (self.x - other.x)) by (nonlinear_arith)
                requires
                    mx == abs_int(self.x - other.x),
            ;
            assert(my * my == (self.y - other.y) * (self.y - other.y)) by (nonlinear_arith)
                requires
                    my == abs_int(self.y - other.y),
            ;
            assert(mx * mx >= 0 && my * my >= 0) by (nonlinear_arith);
            assert(n == mx * mx + my * my);
            if mx >= limit || my >= limit {
                assert(n >= limit * limit) by (nonlinear_arith)
                    requires
                        n == mx * mx + my * my,
                        mx >= limit || my >= limit,
                        mx >= 0,
                        my >= 0,
                        limit >= 0,
                ;
                assert(limit * limit >= 0) by (nonlinear_arith);
                lemma_floor_sqrt_monotone((limit * limit) as nat, n as nat);
                assert(limit * limit < (limit + 1) * (limit + 1)) by (nonlinear_arith)
                    requires
                        limit >= 0,
                ;
                lemma_floor_sqrt_unique(limit * limit, limit as int);
            } else {
                assert(mx * mx + my * my <= 2 * (limit * limit)) by (nonlinear_arith)
                    requires
                        0 <= mx < limit,
                        0 <= my < limit,
                ;
            }
        }
        if mx >= limit || my >= limit {
            i64::MAX
        } else {
            let root: u64 = isqrt(mx * mx + my * my);
            if root > 0x7fff_ffff_ffff_ffffu64 {
                i64::MAX
            } else {
                root as i64
            }
        }
    }

    /// The sum of the two points.
    pub fn add(&self, other: &Point) -> (p: Point)
        ensures
            p == self.added(*other),
    {
        Point { x: add_sat(self.x, other.x), y: add_sat(self.y, other.y) }
    }

    /// The difference of the two points.
    pub fn subtract(&self, other: &Point) -> (p: Point)
        ensures
            p == self.subtracted(*other),
    {
        Point { x: sub_sat(self.x, other.x), y: sub_sat(self.y, other.y) }
    }

    /// The point with both coordinates multiplied by `factor`.
    pub fn scale(&self, factor: Scalar) -> (p: Point)
        ensures
            p == self.scaled(factor),
    {
        Point { x: mul_fixed(self.x, factor), y: mul_fixed(self.y, factor) }
    }
}

/// An axis-aligned rectangle: its corner of least coordinates and its extent.
#[derive(Clone, Copy, Debug, PartialEq, Eq, Structural)]
pub struct BoundingBox {
    pub x: Scalar,
    pub y: Scalar,
    pub width: Scalar,
    pub height: Scalar,
}

impl BoundingBox {
    /// The x coordinate of the right edge.
    pub open spec fn right(self) -> Scalar {
        sum(self.x, self.width)
    }

    /// The y coordinate of the bottom edge.
    pub open spec fn bottom(self) -> Scalar {
        sum(self.y, self.height)
    }

    /// The x coordinate of the vertical centre line.
    pub open spec fn center_x(self) -> Scalar {
        sum(self.x, half(self.width))
    }

    /// The y coordinate of the horizontal centre line.
    pub open spec fn center_y(self) -> Scalar {
        sum(self.y, half(self.height))
    }

    /// The centre of the box.
    pub open spec fn center_point(self) -> Point {
        Point { x: self.center_x(), y: self.center_y() }
    }

    /// Whether the point lies in the box, edges included.
    pub open spec fn contains(self, point: Point) -> bool {
        &&& self.x <= point.x <= self.right()
        &&& self.y <= point.y <= self.bottom()
    }

    /// Whether the two boxes share a point, edges included.
    pub open spec fn overlaps(self, other: BoundingBox) -> bool {
        !(self.right() < other.x || other.right() < self.x || self.bottom() < other.y
            || other.bottom() < self.y)
    }

    /// The smallest box that holds both boxes.
    pub open spec fn joined(self, other: BoundingBox) -> BoundingBox {
        let min_x = lesser(self.x, other.x);
        let min_y = lesser(self.y, other.y);
        let max_x = greater(self.right(), other.right());
        let max_y = greater(self.bottom(), other.bottom());
        BoundingBox { x: min_x, y: min_y, width: diff(max_x, min_x), height: diff(max_y, min_y) }
    }

    pub fn new(x: Scalar, y: Scalar, width: Scalar, height: Scalar) -> (b: BoundingBox)
        ensures
            b == (BoundingBox { x, y, width, height }),
    {
        BoundingBox { x, y, width, height }
    }

    pub fn x(&self) -> (r: Scalar)
        ensures
            r == self.x,
    {
        self.x
    }

    pub fn y(&self) -> (r: Scalar)
        ensures
            r == self.y,
    {
        self.y
    }

    pub fn width(&self) -> (r: Scalar)
        ensures
            r == self.width,
    {
        self.width
    }

    pub fn height(&self) -> (r: Scalar)
        ensures
            r == self.height,
    {
        self.height
    }

    /// The x coordinate of the right edge.
    pub fn max_x(&self) -> (r: Scalar)
        ensures
            r == self.right(),
    {
        add_sat(self.x, self.width)
    }

    /// The y coordinate of the bottom edge.
    pub fn max_y(&self) -> (r: Scalar)
        ensures
            r == self.bottom(),
    {
        add_sat(self.y, self.height)
    }

    /// The centre of the box.
    pub fn center(&self) -> (p: Point)
        ensures
            p == self.center_point(),
    {
        Point { x: add_sat(self.x, halve(self.width)), y: add_sat(self.y, halve(self.height)) }
    }

    /// Whether the point lies in the box, edges included.
    pub fn contains_point(&self, point: &Point) -> (r: bool)
        ensures
            r == self.contains(*point),
    {
        point.x >= self.x && point.x <= self.max_x() && point.y >= self.y && point.y
            <= self.max_y()
    }

    /// Whether the two boxes share a point, edges included.
    pub fn intersects(&self, other: &BoundingBox) -> (r: bool)
        ensures
            r == self.overlaps(*other),
    {
        !(self.max_x() < other.x || other.max_x() < self.x || self.max_y() < other.y
            || other.max_y() < self.y)
    }

    /// The smallest box that holds both boxes.
    pub fn union(&self, other: &BoundingBox) -> (b: BoundingBox)
        ensures
            b == self.joined(*other),
    {
        let min_x = min_of(self.x, other.x);
        let min_y = min_of(self.y, other.y);
        let max_x = max_of(self.max_x(), other.max_x());
        let max_y = max_of(self.max_y(), other.max_y());
        BoundingBox {
            x: min_x,
            y: min_y,
            width: sub_sat(max_x, min_x),
            height: sub_sat(max_y, min_y),
        }
    }
}

} // verus!
