//! Affine transforms in their seven-component form, and how they combine.
use crate::geometry::{BoundingBox, Point};
use crate::rotation::Rotation;
use crate::scalar::{
    add_sat, diff, greater, lesser, max_of, min_of, mul_fixed, neg, neg_sat, prod, sub_sat, sum,
    Scalar, ONE,
};
use vstd::prelude::*;

verus! {

/// An affine transform: a scale, then a rotation, then a translation, with a
/// skew carried along.
#[derive(Clone, Copy, Debug, PartialEq, Eq, Structural)]
pub struct Transform {
    pub translate_x: Scalar,
    pub translate_y: Scalar,
    pub scale_x: Scalar,
    pub scale_y: Scalar,
    pub rotation: Rotation,
    pub skew_x: Scalar,
    pub skew_y: Scalar,
}

impl Transform {
    /// The transform that leaves every point where it is.
    pub open spec fn unit() -> Transform {
        Transform {
            translate_x: 0,
            translate_y: 0,
            scale_x: ONE,
            scale_y: ONE,
            rotation: Rotation::zero(),
            skew_x: 0,
            skew_y: 0,
        }
    }

    /// The transform that only moves by `(x, y)`.
    pub open spec fn translation(x: Scalar, y: Scalar) -> Transform {
        Transform { translate_x: x, translate_y: y, ..Transform::unit() }
    }

    /// The transform that only scales by `sx` and `sy`.
    pub open spec fn scaling(sx: Scalar, sy: Scalar) -> Transform {
        Transform { scale_x: sx, scale_y: sy, ..Transform::unit() }
    }

    /// The transform that only turns by `rotation`.
    pub open spec fn turning(rotation: Rotation) -> Transform {
        Transform { rotation, ..Transform::unit() }
    }

    /// Component-wise composition: translations and skews add, scales
    /// multiply, rotations follow one another.
    pub open spec fn composed(self, other: Transform) -> Transform {
        Transform {
            translate_x: sum(self.translate_x, other.translate_x),
            translate_y: sum(self.translate_y, other.translate_y),
            scale_x: prod(self.scale_x, other.scale_x),
            scale_y: prod(self.scale_y, other.scale_y),
            rotation: self.rotation.followed_by(other.rotation),
            skew_x: sum(self.skew_x, other.skew_x),
            skew_y: sum(self.skew_y, other.skew_y),
        }
    }

    /// Where the transform sends `point`: scaled, then rotated, then moved.
    pub open spec fn applied(self, point: Point) -> Point {
        let scaled_x = prod(point.x, self.scale_x);
        let scaled_y = prod(point.y, self.scale_y);
        let rotated_x = diff(prod(scaled_x, self.rotation.cos), prod(scaled_y, self.rotation.sin));
        let rotated_y = sum(prod(scaled_x, self.rotation.sin), prod(scaled_y, self.rotation.cos));
        Point { x: sum(rotated_x, self.translate_x), y: sum(rotated_y, self.translate_y) }
    }

    /// The same transform with its translation replaced.
    pub open spec fn with_translation(self, x: Scalar, y: Scalar) -> Transform {
        Transform { translate_x: x, translate_y: y, ..self }
    }

    pub fn new() -> (t: Transform)
        ensures
            t == Transform::unit(),
    {
        Transform::identity()
    }

    /// The transform that leaves every point where it is.
    pub fn identity() -> (t: Transform)
        ensures
            t == Transform::unit(),
    {
        Transform {
            translate_x: 0,
            translate_y: 0,
            scale_x: ONE,
            scale_y: ONE,
            rotation: Rotation::identity(),
            skew_x: 0,
            skew_y: 0,
        }
    }

    /// The transform that only moves by `(x, y)`.
    pub fn translate(x: Scalar, y: Scalar) -> (t: Transform)
        ensures
            t == Transform::translation(x, y),
    {
        let base = Transform::identity();
        Transform { translate_x: x, translate_y: y, ..base }
    }

    /// The transform that only scales by `sx` and `sy`.
    pub fn scale(sx: Scalar, sy: Scalar) -> (t: Transform)
        ensures
            t == Transform::scaling(sx, sy),
    {
        let base = Transform::identity();
        Transform { scale_x: sx, scale_y: sy, ..base }
    }

    /// The transform that only turns by `rotation`.
    pub fn rotate(rotation: Rotation) -> (t: Transform)
        ensures
            t == Transform::turning(rotation),
    {
        let base = Transform::identity();
        Transform { rotation, ..base }
    }

    /// Component-wise composition of `self` with `other`.
    pub fn compose(&self, other: &Transform) -> (t: Transform)
        ensures
            t == self.composed(*other),
    {
        Transform {
            translate_x: add_sat(self.translate_x, other.translate_x),
            translate_y: add_sat(self.translate_y, other.translate_y),
            scale_x: mul_fixed(self.scale_x, other.scale_x),
            scale_y: mul_fixed(self.scale_y, other.scale_y),
            rotation: self.rotation.compose(&other.rotation),
            skew_x: add_sat(self.skew_x, other.skew_x),
            skew_y: add_sat(self.skew_y, other.skew_y),
        }
    }

    /// Where the transform sends `point`.
    pub fn transform_point(&self, point: &Point) -> (p: Point)
        ensures
            p == self.applied(*point),
    {
        let scaled_x = mul_fixed(point.x, self.scale_x);
        let scaled_y = mul_fixed(point.y, self.scale_y);
        let rotated_x = sub_sat(
            mul_fixed(scaled_x, self.rotation.cos),
            mul_fixed(scaled_y, self.rotation.sin),
        );
        let rotated_y = add_sat(
            mul_fixed(scaled_x, self.rotation.sin),
            mul_fixed(scaled_y, self.rotation.cos),
        );
        Point { x: add_sat(rotated_x, self.translate_x), y: add_sat(rotated_y, self.translate_y) }
    }
}

/// `base` with `delta` applied about `pivot`: scales multiply, rotations and
/// skews add up, and the translation gains, beside the delta's own, the pivot
/// carried through the delta's scale and rotation less the pivot itself.
pub open spec fn combined_about(base: Transform, delta: Transform, pivot: Point) -> Transform {
    let cos = delta.rotation.cos;
    let sin = delta.rotation.sin;
    Transform {
        translate_x: sum(
            sum(
                sum(base.translate_x, delta.translate_x),
                prod(pivot.x, diff(prod(delta.scale_x, cos), ONE)),
            ),
            prod(pivot.y, prod(delta.scale_x, sin)),
        ),
        translate_y: sum(
            sum(
                sum(base.translate_y, delta.translate_y),
                prod(pivot.x, prod(neg(delta.scale_y), sin)),
            ),
            prod(pivot.y, diff(prod(delta.scale_y, cos), ONE)),
        ),
        scale_x: prod(base.scale_x, delta.scale_x),
        scale_y: prod(base.scale_y, delta.scale_y),
        rotation: base.rotation.followed_by(delta.rotation),
        skew_x: sum(base.skew_x, delta.skew_x),
        skew_y: sum(base.skew_y, delta.skew_y),
    }
}

/// The four corners of a box: top left, top right, bottom right, bottom left.
pub open spec fn corners_of(bounds: BoundingBox) -> Seq<Point> {
    seq![
        Point { x: bounds.x, y: bounds.y },
        Point { x: bounds.right(), y: bounds.y },
        Point { x: bounds.right(), y: bounds.bottom() },
        Point { x: bounds.x, y: bounds.bottom() },
    ]
}

/// The smallest box that holds the four points.
pub open spec fn hull_of(a: Point, b: Point, c: Point, d: Point) -> BoundingBox {
    let min_x = lesser(lesser(a.x, b.x), lesser(c.x, d.x));
    let min_y = lesser(lesser(a.y, b.y), lesser(c.y, d.y));
    let max_x = greater(greater(a.x, b.x), greater(c.x, d.x));
    let max_y = greater(greater(a.y, b.y), greater(c.y, d.y));
    BoundingBox { x: min_x, y: min_y, width: diff(max_x, min_x), height: diff(max_y, min_y) }
}

/// The axis-aligned box around `bounds` after `transform`: the smallest box
/// that holds the images of its four corners.
pub open spec fn bounds_after(bounds: BoundingBox, transform: Transform) -> BoundingBox {
    hull_of(
        transform.applied(corners_of(bounds)[0]),
        transform.applied(corners_of(bounds)[1]),
        transform.applied(corners_of(bounds)[2]),
        transform.applied(corners_of(bounds)[3]),
    )
}

/// Combines `base` with `delta` about the pivot `origin`.
pub fn combine_transforms(base: &Transform, delta: &Transform, origin: &Point) -> (t: Transform)
    ensures
        t == combined_about(*base, *delta, *origin),
{
    let cos = delta.rotation.cos;
    let sin = delta.rotation.sin;
    let dx = origin.x;
    let dy = origin.y;
    Transform {
        translate_x: add_sat(
            add_sat(
                add_sat(base.translate_x, delta.translate_x),
                mul_fixed(dx, sub_sat(mul_fixed(delta.scale_x, cos), ONE)),
            ),
            mul_fixed(dy, mul_fixed(delta.scale_x, sin)),
        ),
        translate_y: add_sat(
            add_sat(
                add_sat(base.translate_y, delta.translate_y),
                mul_fixed(dx, mul_fixed(neg_sat(delta.scale_y), sin)),
            ),
            mul_fixed(dy, sub_sat(mul_fixed(delta.scale_y, cos), ONE)),
        ),
        scale_x: mul_fixed(base.scale_x, delta.scale_x),
        scale_y: mul_fixed(base.scale_y, delta.scale_y),
        rotation: base.rotation.compose(&delta.rotation),
        skew_x: add_sat(base.skew_x, delta.skew_x),
        skew_y: add_sat(base.skew_y, delta.skew_y),
    }
}

/// Recomputes the axis-aligned bounds of a box after `transform`.
pub fn transform_bounds(bounds: &BoundingBox, transform: &Transform) -> (b: BoundingBox)
    ensures
        b == bounds_after(*bounds, *transform),
{
    let right = bounds.max_x();
    let bottom = bounds.max_y();
    let a = transform.transform_point(&Point { x: bounds.x, y: bounds.y });
    let b = transform.transform_point(&Point { x: right, y: bounds.y });
    let c = transform.transform_point(&Point { x: right, y: bottom });
    let d = transform.transform_point(&Point { x: bounds.x, y: bottom });
    let min_x = min_of(min_of(a.x, b.x), min_of(c.x, d.x));
    let min_y = min_of(min_of(a.y, b.y), min_of(c.y, d.y));
    let max_x = max_of(max_of(a.x, b.x), max_of(c.x, d.x));
    let max_y = max_of(max_of(a.y, b.y), max_of(c.y, d.y));
    BoundingBox {
        x: min_x,
        y: min_y,
        width: sub_sat(max_x, min_x),
        height: sub_sat(max_y, min_y),
    }
}

} // verus!
