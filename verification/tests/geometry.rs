use pictorial::rotation::Rotation;
use pictorial::scalar::ONE;
use pictorial::transform::{combine_transforms, transform_bounds};
use pictorial::{BoundingBox, Point, Transform, Viewport};

fn pt(x: i64, y: i64) -> Point {
    Point::new(x * ONE, y * ONE)
}

fn bx(x: i64, y: i64, w: i64, h: i64) -> BoundingBox {
    BoundingBox::new(x * ONE, y * ONE, w * ONE, h * ONE)
}

#[test]
fn point_holds_its_coordinates() {
    let mut p = Point::new(3, -4);
    assert_eq!(p.x(), 3);
    assert_eq!(p.y(), -4);
    p.set_x(10);
    assert_eq!(p, Point::new(10, -4));
    p.set_y(20);
    assert_eq!(p, Point::new(10, 20));
}

#[test]
fn point_arithmetic() {
    let a = pt(1, 2);
    let b = pt(10, 20);
    assert_eq!(a.add(&b), pt(11, 22));
    assert_eq!(a.subtract(&b), pt(-9, -18));
    assert_eq!(b.scale(1_500_000), pt(15, 30));
    assert_eq!(b.scale(-ONE), pt(-10, -20));
}

#[test]
fn point_arithmetic_saturates() {
    let far = Point::new(i64::MAX, i64::MIN);
    assert_eq!(far.add(&Point::new(1, -1)), far);
    assert_eq!(far.subtract(&Point::new(-1, 1)), far);
    assert_eq!(far.scale(2 * ONE), far);
}

#[test]
fn distance_is_euclidean() {
    assert_eq!(pt(0, 0).distance_to(&pt(3, 4)), 5 * ONE);
    assert_eq!(pt(3, 4).distance_to(&pt(0, 0)), 5 * ONE);
    assert_eq!(pt(1, 1).distance_to(&pt(1, 1)), 0);
    assert_eq!(Point::new(0, 0).distance_to(&Point::new(1, 1)), 1);
    assert_eq!(Point::new(0, 0).distance_to(&Point::new(2, 2)), 2);
}

#[test]
fn distance_saturates() {
    let a = Point::new(i64::MIN, 0);
    let b = Point::new(i64::MAX, 0);
    assert_eq!(a.distance_to(&b), i64::MAX);
    let c = Point::new(i64::MAX, i64::MAX);
    assert_eq!(Point::new(0, 0).distance_to(&c), i64::MAX);
    assert_eq!(Point::new(0, 0).distance_to(&Point::new(i64::MAX, 0)), i64::MAX);
}

#[test]
fn box_holds_its_fields() {
    let b = bx(1, 2, 30, 40);
    assert_eq!(b.x(), ONE);
    assert_eq!(b.y(), 2 * ONE);
    assert_eq!(b.width(), 30 * ONE);
    assert_eq!(b.height(), 40 * ONE);
    assert_eq!(b.max_x(), 31 * ONE);
    assert_eq!(b.max_y(), 42 * ONE);
}

#[test]
fn box_centre() {
    assert_eq!(bx(0, 0, 100, 100).center(), pt(50, 50));
    assert_eq!(bx(10, 20, 30, 40).center(), pt(25, 40));
    assert_eq!(BoundingBox::new(0, 0, 7, 7).center(), Point::new(3, 3));
}

#[test]
fn box_contains_its_edges() {
    let b = bx(0, 0, 100, 50);
    assert!(b.contains_point(&pt(0, 0)));
    assert!(b.contains_point(&pt(100, 50)));
    assert!(b.contains_point(&pt(50, 25)));
    assert!(!b.contains_point(&pt(101, 25)));
    assert!(!b.contains_point(&pt(50, -1)));
    assert!(!b.contains_point(&Point::new(-1, 0)));
}

#[test]
fn boxes_that_touch_intersect() {
    let a = bx(0, 0, 10, 10);
    assert!(a.intersects(&bx(10, 10, 5, 5)));
    assert!(a.intersects(&bx(5, 5, 1, 1)));
    assert!(!a.intersects(&bx(11, 0, 5, 5)));
    assert!(!a.intersects(&bx(0, 11, 5, 5)));
    assert!(!bx(11, 0, 5, 5).intersects(&a));
}

#[test]
fn union_spans_both_boxes() {
    let a = bx(0, 0, 50, 10);
    let b = bx(100, -5, 50, 10);
    assert_eq!(a.union(&b), bx(0, -5, 150, 15));
    assert_eq!(b.union(&a), bx(0, -5, 150, 15));
    assert_eq!(a.union(&a), a);
}

#[test]
fn rotation_towards_a_point() {
    assert_eq!(Rotation::identity(), Rotation::new(ONE, 0));
    assert_eq!(Rotation::toward(&pt(5, 0)), Rotation::new(ONE, 0));
    assert_eq!(Rotation::toward(&Point::new(0, -2)), Rotation::new(0, -ONE));
    assert_eq!(Rotation::toward(&pt(3, 4)), Rotation::new(600_000, 800_000));
    assert_eq!(Rotation::toward(&pt(-3, 4)), Rotation::new(-600_000, 800_000));
    assert_eq!(Rotation::toward(&pt(0, 0)), Rotation::identity());
    assert_eq!(Rotation::toward(&Point::new(i64::MIN, 0)), Rotation::new(-ONE, 0));
    assert_eq!(Rotation::toward(&Point::new(i64::MAX, i64::MAX)), Rotation::new(707_106, 707_106));
}

#[test]
fn rotation_between_two_points() {
    assert_eq!(Rotation::between(&pt(1, 0), &pt(0, 1)), Rotation::new(0, ONE));
    assert_eq!(Rotation::between(&pt(0, 1), &pt(1, 0)), Rotation::new(0, -ONE));
    assert_eq!(Rotation::between(&pt(3, 4), &pt(3, 4)), Rotation::identity());
    assert_eq!(Rotation::between(&pt(2, 0), &pt(-7, 0)), Rotation::new(-ONE, 0));
    assert_eq!(Rotation::between(&pt(0, 0), &pt(0, 3)), Rotation::new(0, ONE));
}

#[test]
fn rotations_compose_and_invert() {
    let quarter = Rotation::new(0, ONE);
    assert_eq!(quarter.compose(&quarter), Rotation::new(-ONE, 0));
    assert_eq!(quarter.inverse(), Rotation::new(0, -ONE));
    assert_eq!(quarter.compose(&quarter.inverse()), Rotation::identity());
    let tilt = Rotation::new(600_000, 800_000);
    assert_eq!(tilt.compose(&Rotation::identity()), tilt);
    assert_eq!(tilt.compose(&quarter), Rotation::new(-800_000, 600_000));
}

#[test]
fn transform_builders() {
    let id = Transform::identity();
    assert_eq!(id.translate_x, 0);
    assert_eq!(id.translate_y, 0);
    assert_eq!(id.scale_x, ONE);
    assert_eq!(id.scale_y, ONE);
    assert_eq!(id.rotation, Rotation::identity());
    assert_eq!(id.skew_x, 0);
    assert_eq!(id.skew_y, 0);
    assert_eq!(Transform::new(), id);
    let moved = Transform::translate(3 * ONE, -4 * ONE);
    assert_eq!(moved.translate_x, 3 * ONE);
    assert_eq!(moved.translate_y, -4 * ONE);
    assert_eq!(moved.scale_x, ONE);
    let scaled = Transform::scale(2 * ONE, 3 * ONE);
    assert_eq!(scaled.scale_x, 2 * ONE);
    assert_eq!(scaled.scale_y, 3 * ONE);
    assert_eq!(scaled.translate_x, 0);
    let turned = Transform::rotate(Rotation::new(0, ONE));
    assert_eq!(turned.rotation, Rotation::new(0, ONE));
    assert_eq!(turned.scale_y, ONE);
}

#[test]
fn transforms_compose_component_by_component() {
    let mut a = Transform::translate(ONE, 2 * ONE);
    a.scale_x = 2 * ONE;
    a.scale_y = 3 * ONE;
    a.skew_x = 5;
    a.rotation = Rotation::new(0, ONE);
    let mut b = Transform::translate(10 * ONE, 20 * ONE);
    b.scale_x = 4 * ONE;
    b.scale_y = 500_000;
    b.skew_y = 7;
    b.rotation = Rotation::new(0, ONE);
    let c = a.compose(&b);
    assert_eq!(c.translate_x, 11 * ONE);
    assert_eq!(c.translate_y, 22 * ONE);
    assert_eq!(c.scale_x, 8 * ONE);
    assert_eq!(c.scale_y, 1_500_000);
    assert_eq!(c.rotation, Rotation::new(-ONE, 0));
    assert_eq!(c.skew_x, 5);
    assert_eq!(c.skew_y, 7);
}

#[test]
fn transform_scales_then_rotates_then_moves() {
    let mut t = Transform::translate(10 * ONE, 20 * ONE);
    t.scale_x = 2 * ONE;
    t.scale_y = 3 * ONE;
    t.rotation = Rotation::new(0, ONE);
    assert_eq!(t.transform_point(&pt(1, 1)), pt(7, 22));
    assert_eq!(Transform::identity().transform_point(&pt(-3, 9)), pt(-3, 9));
    assert_eq!(Transform::translate(ONE, ONE).transform_point(&pt(0, 0)), pt(1, 1));
}

#[test]
fn combining_about_a_pivot_corrects_the_translation() {
    let base = Transform::translate(ONE, 2 * ONE);
    let grown = combine_transforms(&base, &Transform::scale(2 * ONE, 3 * ONE), &pt(10, 10));
    assert_eq!(grown.translate_x, 11 * ONE);
    assert_eq!(grown.translate_y, 22 * ONE);
    assert_eq!(grown.scale_x, 2 * ONE);
    assert_eq!(grown.scale_y, 3 * ONE);
    let turned =
        combine_transforms(&base, &Transform::rotate(Rotation::new(0, ONE)), &pt(10, 10));
    assert_eq!(turned.translate_x, ONE);
    assert_eq!(turned.translate_y, -18 * ONE);
    assert_eq!(turned.rotation, Rotation::new(0, ONE));
}

#[test]
fn combining_about_the_origin_adds_no_correction() {
    let base = Transform::translate(ONE, 2 * ONE);
    let delta = Transform::scale(1_500_000, 1_500_000);
    let t = combine_transforms(&base, &delta, &pt(0, 0));
    assert_eq!(t.translate_x, ONE);
    assert_eq!(t.translate_y, 2 * ONE);
    assert_eq!(t.scale_x, 1_500_000);
    assert_eq!(t.scale_y, 1_500_000);
}

#[test]
fn combining_with_no_delta_changes_nothing() {
    let mut base = Transform::translate(-7 * ONE, 9 * ONE);
    base.scale_x = -2 * ONE;
    base.scale_y = 333_333;
    base.rotation = Rotation::new(600_000, 800_000);
    base.skew_x = 11;
    base.skew_y = -13;
    assert_eq!(combine_transforms(&base, &Transform::identity(), &pt(123, -456)), base);
}

#[test]
fn bounds_are_recomputed_from_the_corners() {
    let mut t = Transform::translate(5 * ONE, 5 * ONE);
    t.scale_x = 2 * ONE;
    t.scale_y = 2 * ONE;
    assert_eq!(transform_bounds(&bx(0, 0, 10, 20), &t), bx(5, 5, 20, 40));
    let quarter = Transform::rotate(Rotation::new(0, ONE));
    assert_eq!(transform_bounds(&bx(0, 0, 10, 20), &quarter), bx(-20, 0, 20, 10));
    let flip = Transform::scale(-ONE, ONE);
    assert_eq!(transform_bounds(&bx(10, 0, 10, 20), &flip), bx(-20, 0, 10, 20));
}

#[test]
fn viewport_pans_and_zooms() {
    let mut v = Viewport::new(0, 0, ONE, 800 * ONE, 600 * ONE);
    v.pan(10 * ONE, -5 * ONE);
    assert_eq!(v, Viewport::new(10 * ONE, -5 * ONE, ONE, 800 * ONE, 600 * ONE));
    let mut z = Viewport::new(0, 0, ONE, 800 * ONE, 600 * ONE);
    z.zoom_at(2 * ONE, &pt(100, 100));
    assert_eq!(z, Viewport::new(-100 * ONE, -100 * ONE, 2 * ONE, 800 * ONE, 600 * ONE));
}

#[test]
fn viewport_maps_between_screen_and_world() {
    let v = Viewport::new(10 * ONE, 20 * ONE, 2 * ONE, 800 * ONE, 600 * ONE);
    assert_eq!(v.screen_to_world(&pt(200, 100)), pt(110, 70));
    assert_eq!(v.world_to_screen(&pt(110, 70)), pt(200, 100));
    let still = Viewport::new(0, 0, 0, ONE, ONE);
    assert_eq!(still.screen_to_world(&pt(1, -1)), Point::new(i64::MAX, i64::MIN));
    assert_eq!(still.world_to_screen(&pt(5, 5)), pt(0, 0));
}
