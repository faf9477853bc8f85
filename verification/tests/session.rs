use pictorial::rotation::Rotation;
use pictorial::scalar::ONE;
use pictorial::session::{
    calculate_combined_bounds, capture, constrain, drag_factors, drag_transform, pivot_point,
    snapshot_transforms, DragRules, ElementSnapshot,
};
use pictorial::{
    BoundingBox, ConstraintType, HandleType, Orientation, Point, Transform, TransformEngine,
    TransformError,
};
use rustc_hash::FxHashMap;

fn pt(x: i64, y: i64) -> Point {
    Point::new(x * ONE, y * ONE)
}

fn bx(x: i64, y: i64, w: i64, h: i64) -> BoundingBox {
    BoundingBox::new(x * ONE, y * ONE, w * ONE, h * ONE)
}

fn one_square() -> FxHashMap<u32, (Transform, BoundingBox)> {
    let mut m = FxHashMap::default();
    m.insert(1, (Transform::identity(), bx(0, 0, 100, 100)));
    m
}

fn two_boxes() -> FxHashMap<u32, (Transform, BoundingBox)> {
    let mut m = FxHashMap::default();
    m.insert(1, (Transform::translate(ONE, 2 * ONE), bx(0, 0, 50, 50)));
    m.insert(2, (Transform::scale(2 * ONE, 2 * ONE), bx(100, 20, 50, 80)));
    m
}

fn no_rules() -> DragRules {
    DragRules { lock_scale: false, maintain_aspect: false, lock_rotation: false, snap_to_grid: false }
}

fn scaled(sx: i64, sy: i64) -> Transform {
    Transform::scale(sx, sy)
}

#[test]
fn a_new_engine_is_idle() {
    let engine = TransformEngine::new();
    assert!(!engine.is_transforming());
    assert_eq!(engine.transforming_elements(), None);
    assert_eq!(engine.grid_size(), 10 * ONE);
    assert_eq!(engine.snap_threshold(), 5 * ONE);
    assert!(engine.guides().is_empty());
    assert!(!engine.is_constraint_enabled(ConstraintType::SnapToGrid));
}

#[test]
fn start_makes_the_engine_active_and_finish_idle() {
    let mut engine = TransformEngine::new();
    assert_eq!(
        engine.start_transform(vec![1], HandleType::BottomRight, pt(100, 100), one_square()),
        Ok(())
    );
    assert!(engine.is_transforming());
    assert_eq!(engine.transforming_elements(), Some(&[1u32][..]));
    assert!(engine.finish_transform().is_some());
    assert!(!engine.is_transforming());
    assert_eq!(engine.transforming_elements(), None);
}

#[test]
fn cancel_makes_the_engine_idle() {
    let mut engine = TransformEngine::new();
    assert!(engine.start_transform(vec![1], HandleType::Center, pt(5, 5), one_square()).is_ok());
    assert!(engine.is_transforming());
    assert!(engine.cancel_transform().is_some());
    assert!(!engine.is_transforming());
    assert!(engine.start_transform(vec![1], HandleType::Center, pt(5, 5), one_square()).is_ok());
}

#[test]
fn start_while_active_fails_and_keeps_the_session() {
    let mut engine = TransformEngine::new();
    assert!(engine.start_transform(vec![1], HandleType::BottomRight, pt(100, 100), one_square())
        .is_ok());
    assert_eq!(
        engine.start_transform(vec![2], HandleType::Center, pt(0, 0), two_boxes()),
        Err(TransformError::AlreadyInProgress)
    );
    assert_eq!(
        engine.start_transform(vec![], HandleType::Center, pt(0, 0), FxHashMap::default()),
        Err(TransformError::AlreadyInProgress)
    );
    assert_eq!(engine.transforming_elements(), Some(&[1u32][..]));
    let grown = engine.update_transform(pt(150, 150)).unwrap();
    assert_eq!(grown.len(), 1);
    assert_eq!(grown[&1], scaled(1_500_000, 1_500_000));
    let restored = engine.cancel_transform().unwrap();
    assert_eq!(restored.len(), 1);
    assert_eq!(restored[&1], Transform::identity());
}

#[test]
fn start_without_elements_fails() {
    let mut engine = TransformEngine::new();
    assert_eq!(
        engine.start_transform(vec![], HandleType::Center, pt(0, 0), one_square()),
        Err(TransformError::InvalidSelection)
    );
    assert!(!engine.is_transforming());
}

#[test]
fn start_with_an_unknown_element_fails() {
    let mut engine = TransformEngine::new();
    assert_eq!(
        engine.start_transform(vec![1, 7], HandleType::Center, pt(0, 0), one_square()),
        Err(TransformError::UnknownElement)
    );
    assert_eq!(
        engine.start_transform(vec![7], HandleType::Center, pt(0, 0), FxHashMap::default()),
        Err(TransformError::UnknownElement)
    );
    assert!(!engine.is_transforming());
    assert_eq!(engine.update_transform(pt(1, 1)), None);
}

#[test]
fn idle_engine_has_nothing_to_update_finish_or_cancel() {
    let mut engine = TransformEngine::new();
    assert_eq!(engine.update_transform(pt(1, 1)), None);
    assert_eq!(engine.finish_transform(), None);
    assert_eq!(engine.cancel_transform(), None);
    assert!(!engine.is_transforming());
}

#[test]
fn dragging_the_bottom_right_corner_of_a_square() {
    assert_eq!(pivot_point(&bx(0, 0, 100, 100), HandleType::BottomRight), pt(0, 0));
    let mut engine = TransformEngine::new();
    assert!(engine.start_transform(vec![1], HandleType::BottomRight, pt(100, 100), one_square())
        .is_ok());
    let updated = engine.update_transform(pt(150, 150)).unwrap();
    assert_eq!(updated.len(), 1);
    let t = updated[&1];
    assert_eq!(t.scale_x, 1_500_000);
    assert_eq!(t.scale_y, 1_500_000);
    assert_eq!(t.translate_x, 0);
    assert_eq!(t.translate_y, 0);
    assert_eq!(t.rotation, Rotation::identity());
    let restored = engine.cancel_transform().unwrap();
    assert_eq!(restored.len(), 1);
    assert_eq!(restored[&1], Transform::identity());
}

#[test]
fn the_pivot_lies_across_from_the_handle() {
    let b = bx(10, 20, 100, 60);
    assert_eq!(pivot_point(&b, HandleType::TopLeft), pt(110, 80));
    assert_eq!(pivot_point(&b, HandleType::TopRight), pt(10, 80));
    assert_eq!(pivot_point(&b, HandleType::BottomLeft), pt(110, 20));
    assert_eq!(pivot_point(&b, HandleType::BottomRight), pt(10, 20));
    assert_eq!(pivot_point(&b, HandleType::TopCenter), pt(60, 80));
    assert_eq!(pivot_point(&b, HandleType::BottomCenter), pt(60, 20));
    assert_eq!(pivot_point(&b, HandleType::MiddleLeft), pt(110, 50));
    assert_eq!(pivot_point(&b, HandleType::MiddleRight), pt(10, 50));
    assert_eq!(pivot_point(&b, HandleType::Center), pt(60, 50));
    assert_eq!(pivot_point(&b, HandleType::Rotation), pt(60, 50));
}

#[test]
fn dragging_the_top_left_corner_pivots_about_the_bottom_right() {
    let mut engine = TransformEngine::new();
    assert!(engine.start_transform(vec![1], HandleType::TopLeft, pt(0, 0), one_square()).is_ok());
    let t = engine.update_transform(pt(50, 50)).unwrap()[&1];
    assert_eq!(t.scale_x, 500_000);
    assert_eq!(t.scale_y, 500_000);
    assert_eq!(t.translate_x, -50 * ONE);
    assert_eq!(t.translate_y, -50 * ONE);
}

#[test]
fn several_elements_pivot_about_their_common_bounds() {
    let ids = vec![1u32, 2u32];
    let states = capture(&two_boxes());
    assert_eq!(calculate_combined_bounds(&ids, &states), Some(bx(0, 0, 150, 100)));
    assert_eq!(calculate_combined_bounds(&vec![2u32], &states), Some(bx(100, 20, 50, 80)));
    assert_eq!(calculate_combined_bounds(&vec![], &states), None);
    assert_eq!(calculate_combined_bounds(&vec![9u32], &states), None);
    assert_eq!(calculate_combined_bounds(&vec![9u32, 1u32], &states), Some(bx(0, 0, 50, 50)));

    let mut engine = TransformEngine::new();
    assert!(engine.start_transform(ids, HandleType::TopLeft, pt(0, 0), two_boxes()).is_ok());
    let updated = engine.update_transform(pt(75, 50)).unwrap();
    assert_eq!(updated.len(), 2);
    let first = updated[&1];
    assert_eq!(first.scale_x, 500_000);
    assert_eq!(first.scale_y, 500_000);
    assert_eq!(first.translate_x, ONE - 75 * ONE);
    assert_eq!(first.translate_y, 2 * ONE - 50 * ONE);
    let second = updated[&2];
    assert_eq!(second.scale_x, ONE);
    assert_eq!(second.scale_y, ONE);
    assert_eq!(second.translate_x, -75 * ONE);
    assert_eq!(second.translate_y, -50 * ONE);
}

#[test]
fn snapshots_are_captured_as_supplied() {
    let states = capture(&two_boxes());
    assert_eq!(states.len(), 2);
    assert_eq!(
        states[&1],
        ElementSnapshot { transform: Transform::translate(ONE, 2 * ONE), bounds: bx(0, 0, 50, 50) }
    );
    assert_eq!(
        states[&2],
        ElementSnapshot {
            transform: Transform::scale(2 * ONE, 2 * ONE),
            bounds: bx(100, 20, 50, 80)
        }
    );
    let transforms = snapshot_transforms(&states);
    assert_eq!(transforms.len(), 2);
    assert_eq!(transforms[&1], Transform::translate(ONE, 2 * ONE));
    assert_eq!(transforms[&2], Transform::scale(2 * ONE, 2 * ONE));
    assert!(capture(&FxHashMap::default()).is_empty());
}

#[test]
fn update_covers_the_selected_elements_only() {
    let mut engine = TransformEngine::new();
    assert!(engine.start_transform(vec![2, 2], HandleType::Center, pt(0, 0), two_boxes()).is_ok());
    let before = engine.update_transform(pt(0, 0)).unwrap();
    assert_eq!(before.len(), 1);
    assert_eq!(before[&2], Transform::scale(2 * ONE, 2 * ONE));
    let restored = engine.cancel_transform().unwrap();
    assert_eq!(restored.len(), 2);
    assert_eq!(restored[&1], Transform::translate(ONE, 2 * ONE));
    assert_eq!(restored[&2], Transform::scale(2 * ONE, 2 * ONE));
}

#[test]
fn update_is_repeatable() {
    let mut engine = TransformEngine::new();
    assert!(engine.start_transform(vec![1, 2], HandleType::BottomRight, pt(150, 100), two_boxes())
        .is_ok());
    let first = engine.update_transform(pt(170, 130)).unwrap();
    let second = engine.update_transform(pt(170, 130)).unwrap();
    assert_eq!(first, second);
    engine.update_transform(pt(-20, 400)).unwrap();
    engine.update_transform(pt(0, 0)).unwrap();
    let third = engine.update_transform(pt(170, 130)).unwrap();
    assert_eq!(first, third);
    assert_eq!(first[&1].scale_x, 1_133_333);
    assert_eq!(first[&1].scale_y, 1_300_000);
}

#[test]
fn cancel_restores_the_snapshots_after_any_updates() {
    let mut engine = TransformEngine::new();
    assert!(engine.start_transform(vec![1, 2], HandleType::Rotation, pt(75, -20), two_boxes())
        .is_ok());
    engine.update_transform(pt(200, 50)).unwrap();
    engine.update_transform(pt(-3, 8)).unwrap();
    engine.update_transform(pt(75, 400)).unwrap();
    let restored = engine.cancel_transform().unwrap();
    assert_eq!(restored.len(), 2);
    assert_eq!(restored[&1], Transform::translate(ONE, 2 * ONE));
    assert_eq!(restored[&2], Transform::scale(2 * ONE, 2 * ONE));
}

#[test]
fn finish_returns_the_latest_update() {
    let mut engine = TransformEngine::new();
    assert!(engine.start_transform(vec![1], HandleType::Center, pt(5, 5), one_square()).is_ok());
    engine.update_transform(pt(15, 5)).unwrap();
    let last = engine.update_transform(pt(25, 45)).unwrap();
    let finished = engine.finish_transform().unwrap();
    assert_eq!(finished, last);
    assert_eq!(finished[&1], Transform::translate(20 * ONE, 40 * ONE));
}

#[test]
fn finish_without_update_returns_the_snapshots() {
    let mut engine = TransformEngine::new();
    assert!(engine.start_transform(vec![1], HandleType::Center, pt(5, 5), two_boxes()).is_ok());
    let finished = engine.finish_transform().unwrap();
    assert_eq!(finished.len(), 2);
    assert_eq!(finished[&1], Transform::translate(ONE, 2 * ONE));
    assert_eq!(finished[&2], Transform::scale(2 * ONE, 2 * ONE));
}

#[test]
fn the_centre_handle_moves() {
    let mut engine = TransformEngine::new();
    assert!(engine.start_transform(vec![1, 2], HandleType::Center, pt(5, 5), two_boxes()).is_ok());
    let updated = engine.update_transform(pt(13, 2)).unwrap();
    let mut first = Transform::translate(9 * ONE, -ONE);
    assert_eq!(updated[&1], first);
    first = Transform::scale(2 * ONE, 2 * ONE);
    first.translate_x = 8 * ONE;
    first.translate_y = -3 * ONE;
    assert_eq!(updated[&2], first);
}

#[test]
fn the_grid_rounds_the_translation() {
    let mut engine = TransformEngine::new();
    engine.set_grid(true, 20 * ONE, "#E0E0E0".to_string(), ONE / 2, true);
    engine.set_constraint(ConstraintType::SnapToGrid, true);
    assert!(engine.start_transform(vec![1], HandleType::Center, pt(5, 5), one_square()).is_ok());
    let near = engine.update_transform(pt(13, 13)).unwrap()[&1];
    assert_eq!(near.translate_x, 0);
    assert_eq!(near.translate_y, 0);
    let far = engine.update_transform(pt(17, 36)).unwrap()[&1];
    assert_eq!(far.translate_x, 20 * ONE);
    assert_eq!(far.translate_y, 40 * ONE);
    assert_eq!(far.scale_x, ONE);
    assert_eq!(far.rotation, Rotation::identity());
}

#[test]
fn the_grid_rule_alone_decides_on_rounding_in_an_update() {
    let mut engine = TransformEngine::new();
    engine.set_grid_size(20 * ONE);
    assert!(engine.start_transform(vec![1], HandleType::Center, pt(5, 5), one_square()).is_ok());
    assert_eq!(engine.update_transform(pt(17, 5)).unwrap()[&1].translate_x, 12 * ONE);
    engine.set_constraint(ConstraintType::SnapToGrid, true);
    assert_eq!(engine.update_transform(pt(17, 5)).unwrap()[&1].translate_x, 20 * ONE);
}

#[test]
fn kept_aspect_ratio_makes_the_factors_uniform() {
    let mut engine = TransformEngine::new();
    engine.set_constraint(ConstraintType::MaintainAspectRatio, true);
    assert!(engine.start_transform(vec![1], HandleType::BottomRight, pt(100, 100), one_square())
        .is_ok());
    let wide = engine.update_transform(pt(150, 120)).unwrap()[&1];
    assert_eq!(wide.scale_x, 1_500_000);
    assert_eq!(wide.scale_y, 1_500_000);
    let flipped = engine.update_transform(pt(-50, 120)).unwrap()[&1];
    assert_eq!(flipped.scale_x, -1_200_000);
    assert_eq!(flipped.scale_y, 1_200_000);
    let flat = engine.update_transform(pt(0, -30)).unwrap()[&1];
    assert_eq!(flat.scale_x, 300_000);
    assert_eq!(flat.scale_y, -300_000);
}

#[test]
fn an_edge_handle_scales_its_own_axis_only() {
    let mut engine = TransformEngine::new();
    assert!(engine.start_transform(vec![1], HandleType::TopCenter, pt(60, 0), one_square()).is_ok());
    let taller = engine.update_transform(pt(90, -50)).unwrap()[&1];
    assert_eq!(taller.scale_x, ONE);
    assert_eq!(taller.scale_y, 1_500_000);
    assert_eq!(taller.translate_x, 0);
    assert_eq!(taller.translate_y, 50 * ONE);
    engine.cancel_transform().unwrap();
    assert!(engine.start_transform(vec![1], HandleType::MiddleRight, pt(100, 40), one_square())
        .is_ok());
    let wider = engine.update_transform(pt(250, 90)).unwrap()[&1];
    assert_eq!(wider.scale_x, 2_500_000);
    assert_eq!(wider.scale_y, ONE);
}

#[test]
fn an_edge_handle_with_kept_aspect_ratio_scales_both_axes() {
    let mut engine = TransformEngine::new();
    engine.set_constraint(ConstraintType::MaintainAspectRatio, true);
    assert!(engine.start_transform(vec![1], HandleType::TopCenter, pt(60, 0), one_square()).is_ok());
    let taller = engine.update_transform(pt(60, -50)).unwrap()[&1];
    assert_eq!(taller.scale_x, 1_500_000);
    assert_eq!(taller.scale_y, 1_500_000);
}

#[test]
fn a_drag_that_starts_on_the_pivot_axis_does_not_scale() {
    let mut engine = TransformEngine::new();
    assert!(engine.start_transform(vec![1], HandleType::TopCenter, pt(50, 0), one_square()).is_ok());
    assert_eq!(engine.update_transform(pt(50, -50)).unwrap()[&1], Transform::identity());
    engine.cancel_transform().unwrap();
    let near = Point::new(99, 100 * ONE);
    assert!(engine.start_transform(vec![1], HandleType::BottomRight, near, one_square()).is_ok());
    assert_eq!(engine.update_transform(pt(150, 150)).unwrap()[&1], Transform::identity());
    engine.cancel_transform().unwrap();
    let off = Point::new(100, 100 * ONE);
    assert!(engine.start_transform(vec![1], HandleType::BottomRight, off, one_square()).is_ok());
    assert_eq!(engine.update_transform(Point::new(200, 150 * ONE)).unwrap()[&1].scale_x, 2 * ONE);
}

#[test]
fn a_locked_scale_does_not_scale() {
    let mut engine = TransformEngine::new();
    engine.set_constraint(ConstraintType::LockScale, true);
    engine.set_constraint(ConstraintType::MaintainAspectRatio, true);
    assert!(engine.start_transform(vec![1], HandleType::BottomRight, pt(100, 100), one_square())
        .is_ok());
    assert_eq!(engine.update_transform(pt(150, 170)).unwrap()[&1], Transform::identity());
}

#[test]
fn the_rotation_handle_turns_about_the_centre() {
    let mut engine = TransformEngine::new();
    assert!(engine.start_transform(vec![1], HandleType::Rotation, pt(50, -20), one_square())
        .is_ok());
    let t = engine.update_transform(pt(120, 50)).unwrap()[&1];
    assert_eq!(t.rotation, Rotation::new(0, ONE));
    assert_eq!(t.scale_x, ONE);
    assert_eq!(t.scale_y, ONE);
    assert_eq!(t.translate_x, 0);
    assert_eq!(t.translate_y, -100 * ONE);
    let same = engine.update_transform(pt(50, -90)).unwrap()[&1];
    assert_eq!(same, Transform::identity());
}

#[test]
fn a_locked_rotation_does_not_turn() {
    let mut engine = TransformEngine::new();
    engine.set_constraint(ConstraintType::LockRotation, true);
    assert!(engine.start_transform(vec![1], HandleType::Rotation, pt(50, -20), one_square())
        .is_ok());
    assert_eq!(engine.update_transform(pt(120, 50)).unwrap()[&1], Transform::identity());
}

#[test]
fn factors_of_a_drag() {
    let start = pt(100, 100);
    let pivot = pt(0, 0);
    assert_eq!(
        drag_factors(HandleType::BottomRight, &start, &pivot, &pt(150, 50)),
        (1_500_000, 500_000)
    );
    assert_eq!(drag_factors(HandleType::TopCenter, &start, &pivot, &pt(150, 50)), (ONE, 500_000));
    assert_eq!(
        drag_factors(HandleType::MiddleLeft, &start, &pivot, &pt(150, 50)),
        (1_500_000, ONE)
    );
    assert_eq!(drag_factors(HandleType::Center, &start, &pivot, &pt(150, 50)), (ONE, ONE));
    assert_eq!(drag_factors(HandleType::Rotation, &start, &pivot, &pt(150, 50)), (ONE, ONE));
    assert_eq!(drag_factors(HandleType::TopLeft, &pt(0, 100), &pivot, &pt(150, 50)), (ONE, ONE));
    assert_eq!(
        drag_factors(HandleType::TopLeft, &start, &pivot, &pt(-100, 0)),
        (-ONE, 0)
    );
}

#[test]
fn deltas_of_a_drag() {
    let start = pt(10, 0);
    let pivot = pt(0, 0);
    assert_eq!(
        drag_transform(HandleType::Center, &start, &pivot, &pt(13, -4)),
        Transform::translate(3 * ONE, -4 * ONE)
    );
    assert_eq!(
        drag_transform(HandleType::Rotation, &start, &pivot, &pt(0, 5)),
        Transform::rotate(Rotation::new(0, ONE))
    );
    assert_eq!(
        drag_transform(HandleType::TopRight, &pt(10, 10), &pivot, &pt(20, 5)),
        Transform::scale(2 * ONE, 500_000)
    );
}

#[test]
fn switches_on_a_delta() {
    let mut delta = Transform::scale(-2 * ONE, 3 * ONE);
    delta.rotation = Rotation::new(0, ONE);
    delta.translate_x = 7;
    assert_eq!(constrain(&delta, &no_rules()), delta);
    let mut rules = no_rules();
    rules.maintain_aspect = true;
    let uniform = constrain(&delta, &rules);
    assert_eq!(uniform.scale_x, -3 * ONE);
    assert_eq!(uniform.scale_y, 3 * ONE);
    assert_eq!(uniform.rotation, Rotation::new(0, ONE));
    assert_eq!(uniform.translate_x, 7);
    rules.lock_scale = true;
    let locked = constrain(&delta, &rules);
    assert_eq!(locked.scale_x, ONE);
    assert_eq!(locked.scale_y, ONE);
    rules.lock_rotation = true;
    assert_eq!(constrain(&delta, &rules).rotation, Rotation::identity());
    let zero = constrain(&Transform::scale(0, -5), &DragRules { maintain_aspect: true, ..no_rules() });
    assert_eq!(zero.scale_x, 5);
    assert_eq!(zero.scale_y, -5);
}

#[test]
fn the_engine_applies_its_own_switches() {
    let mut engine = TransformEngine::new();
    let delta = Transform::scale(-2 * ONE, 3 * ONE);
    assert_eq!(engine.apply_constraints(&delta), delta);
    assert_eq!(engine.drag_rules(), no_rules());
    engine.set_constraint(ConstraintType::MaintainAspectRatio, true);
    assert_eq!(engine.apply_constraints(&delta), Transform::scale(-3 * ONE, 3 * ONE));
    engine.set_constraint(ConstraintType::LockScale, true);
    assert_eq!(engine.apply_constraints(&delta), Transform::identity());
}

#[test]
fn temporary_guides_go_when_the_session_ends() {
    let mut engine = TransformEngine::new();
    engine.add_alignment_guide(Orientation::Vertical, 10 * ONE, vec![1]);
    engine.add_temporary_guide(Orientation::Horizontal, 20 * ONE, vec![]);
    engine.add_alignment_guide(Orientation::Horizontal, 30 * ONE, vec![2, 3]);
    assert_eq!(engine.finish_transform(), None);
    assert_eq!(engine.guides().len(), 3);
    assert!(engine.start_transform(vec![1], HandleType::Center, pt(0, 0), one_square()).is_ok());
    engine.add_temporary_guide(Orientation::Vertical, 40 * ONE, vec![1]);
    assert_eq!(engine.guides().len(), 4);
    assert!(engine.finish_transform().is_some());
    let left: Vec<i64> = engine.guides().iter().map(|g| g.position).collect();
    assert_eq!(left, vec![10 * ONE, 30 * ONE]);
    engine.add_temporary_guide(Orientation::Vertical, 50 * ONE, vec![]);
    assert!(engine.start_transform(vec![1], HandleType::Center, pt(0, 0), one_square()).is_ok());
    assert!(engine.cancel_transform().is_some());
    assert_eq!(engine.guides().len(), 2);
}

#[test]
fn a_failed_start_leaves_the_engine_as_it_was() {
    let mut engine = TransformEngine::new();
    engine.add_alignment_guide(Orientation::Vertical, 10 * ONE, vec![]);
    engine.set_constraint(ConstraintType::LockScale, true);
    assert!(engine.start_transform(vec![], HandleType::Center, pt(0, 0), one_square()).is_err());
    assert!(engine.start_transform(vec![3], HandleType::Center, pt(0, 0), one_square()).is_err());
    assert!(!engine.is_transforming());
    assert_eq!(engine.guides().len(), 1);
    assert!(engine.is_constraint_enabled(ConstraintType::LockScale));
    assert_eq!(engine.grid_size(), 10 * ONE);
}

#[test]
fn an_update_keeps_the_session_going() {
    let mut engine = TransformEngine::new();
    assert!(engine.start_transform(vec![1], HandleType::Center, pt(0, 0), one_square()).is_ok());
    for step in 0..5 {
        assert!(engine.update_transform(pt(step, -step)).is_some());
        assert!(engine.is_transforming());
        assert_eq!(engine.transforming_elements(), Some(&[1u32][..]));
    }
}

#[test]
fn selected_elements_are_looked_up() {
    let states = capture(&two_boxes());
    assert!(pictorial::session::knows_all(&vec![1, 2, 1], &states));
    assert!(pictorial::session::knows_all(&vec![], &states));
    assert!(!pictorial::session::knows_all(&vec![1, 3], &states));
    assert!(!pictorial::session::knows_all(&vec![0], &two_boxes()));
}

#[test]
fn one_element_under_a_delta() {
    let base = Transform::translate(3 * ONE, 4 * ONE);
    let delta = Transform::scale(2 * ONE, 2 * ONE);
    let plain = pictorial::session::move_element(&base, &delta, &pt(10, 20), false, 5 * ONE);
    assert_eq!(plain.translate_x, 13 * ONE);
    assert_eq!(plain.translate_y, 24 * ONE);
    let snapped = pictorial::session::move_element(&base, &delta, &pt(10, 20), true, 5 * ONE);
    assert_eq!(snapped.translate_x, 15 * ONE);
    assert_eq!(snapped.translate_y, 25 * ONE);
    assert_eq!(snapped.scale_x, 2 * ONE);
    let aligned = pictorial::session::align_to_grid(&base, 10 * ONE);
    assert_eq!(aligned, Transform::translate(0, 0));
    assert_eq!(pictorial::session::EPSILON, 100);
}
