//! What holds of the engine whatever it is asked to do, proved over the
//! transitions that the engine's functions are bound to.
use crate::alignment::{alignment_offset, extent_of, translated, Alignment, Extent};
use crate::element::VectorElement;
use crate::engine::{EngineView, TransformError};
use crate::geometry::{BoundingBox, Point};
use crate::guides::{
    box_lines, guide_lines, last_match, lemma_guide_line_is_guide, lemma_last_match_concat,
    lemma_last_match_ignores_fallback, lemma_last_match_is_candidate,
    lemma_object_line_is_box_line, object_lines, snap_candidates, snapped_to_guides,
    AlignmentGuide, Orientation,
};
use crate::handles::{
    anchor, handle_at, handle_layout, handle_order, hit_box, hit_kind, is_first_hit,
    lemma_first_hit_unique, Handle, HandleType,
};
use crate::scalar::{
    abs_int, lemma_half_bounds, lemma_prod_mag, lemma_prod_one, lemma_prod_zero, mag, sum, within,
    Scalar, ONE,
};
use crate::session::{
    drag_delta, moved, snapshots_of, transforms_of, update_result, DragRules, SessionView,
};
use crate::transform::{combined_about, Transform};
use vstd::prelude::*;

verus! {

/// The engine after one update for each of `points`, in order.
pub open spec fn after_updates(engine: EngineView, points: Seq<Point>) -> EngineView
    decreases points.len(),
{
    if points.len() == 0 {
        engine
    } else {
        after_updates(engine, points.drop_last()).after_update(points.last())
    }
}

/// A manipulation is in progress right after a start that succeeds.
pub proof fn law_start_activates(
    engine: EngineView,
    element_ids: Seq<u32>,
    handle_type: HandleType,
    start_point: Point,
    supplied: Map<u32, (Transform, BoundingBox)>,
)
    requires
        engine.start_outcome(element_ids, supplied) is Ok,
    ensures
        engine.after_start(element_ids, handle_type, start_point, supplied).is_active(),
{
}

/// No manipulation is in progress right after a finish or a cancel.
pub proof fn law_end_idles(engine: EngineView)
    ensures
        !engine.after_end().is_active(),
{
}

/// A start while a manipulation is in progress fails as already in progress
/// and leaves the engine, the running manipulation's snapshots included, as
/// it was.
pub proof fn law_start_while_active(
    engine: EngineView,
    element_ids: Seq<u32>,
    handle_type: HandleType,
    start_point: Point,
    supplied: Map<u32, (Transform, BoundingBox)>,
)
    requires
        engine.is_active(),
    ensures
        engine.start_outcome(element_ids, supplied) == Err::<(), TransformError>(
            TransformError::AlreadyInProgress,
        ),
        engine.after_start(element_ids, handle_type, start_point, supplied) == engine,
{
}

/// A start that fails leaves the engine as it was: no manipulation begins in
/// part.
pub proof fn law_failed_start_changes_nothing(
    engine: EngineView,
    element_ids: Seq<u32>,
    handle_type: HandleType,
    start_point: Point,
    supplied: Map<u32, (Transform, BoundingBox)>,
)
    requires
        engine.start_outcome(element_ids, supplied) is Err,
    ensures
        engine.after_start(element_ids, handle_type, start_point, supplied) == engine,
{
}

/// An update never ends a manipulation, and never begins one.
pub proof fn law_update_keeps_session(engine: EngineView, current: Point)
    ensures
        engine.after_update(current).is_active() == engine.is_active(),
{
}

/// Updates change nothing but the current transforms of the manipulation.
pub proof fn lemma_updates_keep_rest(engine: EngineView, points: Seq<Point>)
    ensures
        after_updates(engine, points).session is Some == engine.session is Some,
        engine.session is Some ==> after_updates(engine, points) == (EngineView {
            session: Some(
                SessionView {
                    current_transforms: after_updates(
                        engine,
                        points,
                    ).session.unwrap().current_transforms,
                    ..engine.session.unwrap()
                },
            ),
            ..engine
        }),
        engine.session is None ==> after_updates(engine, points) == engine,
    decreases points.len(),
{
    if points.len() > 0 {
        lemma_updates_keep_rest(engine, points.drop_last());
    }
}

/// An update returns the same transforms for the same pointer position,
/// whatever updates came before it in the same manipulation: nothing drifts.
pub proof fn law_update_repeats(engine: EngineView, between: Seq<Point>, current: Point)
    ensures
        after_updates(engine, between).update_outcome(current) == engine.update_outcome(current),
        engine.after_update(current).update_outcome(current) == engine.update_outcome(current),
{
    lemma_updates_keep_rest(engine, between);
    if engine.session is Some {
        let session = engine.session.unwrap();
        let later = after_updates(engine, between).session.unwrap();
        assert(update_result(later, engine.rules(), engine.grid.size, current) =~= update_result(
            session,
            engine.rules(),
            engine.grid.size,
            current,
        ));
        let next = engine.after_update(current).session.unwrap();
        assert(update_result(next, engine.rules(), engine.grid.size, current) =~= update_result(
            session,
            engine.rules(),
            engine.grid.size,
            current,
        ));
    }
}

/// A cancel returns the transforms supplied at the start, one for each
/// supplied element, however many updates came in between.
pub proof fn law_cancel_restores(
    engine: EngineView,
    element_ids: Seq<u32>,
    handle_type: HandleType,
    start_point: Point,
    supplied: Map<u32, (Transform, BoundingBox)>,
    points: Seq<Point>,
)
    requires
        engine.start_outcome(element_ids, supplied) is Ok,
    ensures
        after_updates(
            engine.after_start(element_ids, handle_type, start_point, supplied),
            points,
        ).cancel_outcome() == Some(transforms_of(snapshots_of(supplied))),
        transforms_of(snapshots_of(supplied)).dom() == supplied.dom(),
        forall|id: u32|
            supplied.contains_key(id) ==> #[trigger] transforms_of(snapshots_of(supplied))[id]
                == supplied[id].0,
{
    let begun = engine.after_start(element_ids, handle_type, start_point, supplied);
    lemma_updates_keep_rest(begun, points);
    assert(transforms_of(snapshots_of(supplied)).dom() =~= supplied.dom());
}

/// A delta that neither moves nor scales nor turns leaves a transform as it
/// is, about whatever pivot: so does a drag that is locked or degenerate.
pub proof fn law_unit_delta_keeps_transform(initial: Transform, pivot: Point)
    ensures
        combined_about(initial, Transform::unit(), pivot) == initial,
{
    law_translation_only_moves(initial, 0, 0, pivot);
}

/// A delta that only moves adds to the translation and changes nothing else,
/// about whatever pivot: so does a drag of the centre handle.
pub proof fn law_translation_only_moves(initial: Transform, dx: Scalar, dy: Scalar, pivot: Point)
    ensures
        combined_about(initial, Transform::translation(dx, dy), pivot) == initial.with_translation(
            sum(initial.translate_x, dx),
            sum(initial.translate_y, dy),
        ),
{
    lemma_prod_one(ONE);
    lemma_prod_zero(ONE);
    lemma_prod_zero(pivot.x);
    lemma_prod_zero(pivot.y);
    lemma_prod_one(initial.scale_x);
    lemma_prod_one(initial.scale_y);
    lemma_prod_one(initial.rotation.cos);
    lemma_prod_one(initial.rotation.sin);
    lemma_prod_zero(initial.rotation.cos);
    lemma_prod_zero(initial.rotation.sin);
    lemma_prod_zero(-1_000_000i64);
}

/// With the aspect ratio kept, the two factors of a drag are of one
/// magnitude, whichever handle is dragged and wherever to.
pub proof fn law_aspect_ratio_kept(
    handle: HandleType,
    start: Point,
    pivot: Point,
    current: Point,
    rules: DragRules,
)
    requires
        rules.maintain_aspect,
    ensures
        abs_int(drag_delta(handle, start, pivot, current, rules).scale_x as int) == abs_int(
            drag_delta(handle, start, pivot, current, rules).scale_y as int,
        ),
{
}

/// With the aspect ratio kept, an element whose scale was of one magnitude
/// on both axes when the manipulation began has such a scale after every
/// update.
pub proof fn law_aspect_ratio_in_result(
    initial: Transform,
    handle: HandleType,
    start: Point,
    pivot: Point,
    current: Point,
    rules: DragRules,
    grid: Scalar,
)
    requires
        rules.maintain_aspect,
        abs_int(initial.scale_x as int) == abs_int(initial.scale_y as int),
    ensures
        mag(
            moved(
                initial,
                drag_delta(handle, start, pivot, current, rules),
                pivot,
                rules.snap_to_grid,
                grid,
            ).scale_x,
        ) == mag(
            moved(
                initial,
                drag_delta(handle, start, pivot, current, rules),
                pivot,
                rules.snap_to_grid,
                grid,
            ).scale_y,
        ),
{
    let delta = drag_delta(handle, start, pivot, current, rules);
    law_aspect_ratio_kept(handle, start, pivot, current, rules);
    lemma_prod_mag(initial.scale_x, delta.scale_x, initial.scale_y, delta.scale_y);
}

/// With the aspect ratio kept, every element whose scale was of one magnitude
/// on both axes when the manipulation began comes out of an update with such
/// a scale.
pub proof fn law_aspect_ratio_in_update(engine: EngineView, current: Point, id: u32)
    requires
        engine.session is Some,
        engine.rules().maintain_aspect,
        engine.update_outcome(current).unwrap().contains_key(id),
        abs_int(engine.session.unwrap().initial_states[id].transform.scale_x as int) == abs_int(
            engine.session.unwrap().initial_states[id].transform.scale_y as int,
        ),
    ensures
        mag(engine.update_outcome(current).unwrap()[id].scale_x) == mag(
            engine.update_outcome(current).unwrap()[id].scale_y,
        ),
{
    let session = engine.session.unwrap();
    law_aspect_ratio_in_result(
        session.initial_states[id].transform,
        session.handle_type,
        session.start_point,
        session.origin,
        current,
        engine.rules(),
        engine.grid.size,
    );
}

/// Dragging an edge handle leaves the scale across that edge's own axis as
/// it was, unless the aspect ratio is kept: the handles in the middle of the
/// top and bottom edges never change the x scale, those in the middle of the
/// left and right edges never the y scale.
pub proof fn law_edge_keeps_other_axis(
    initial: Transform,
    handle: HandleType,
    start: Point,
    pivot: Point,
    current: Point,
    rules: DragRules,
    grid: Scalar,
)
    requires
        handle.is_horizontal_edge() || handle.is_vertical_edge(),
        !rules.maintain_aspect || rules.lock_scale,
    ensures
        handle.is_horizontal_edge() ==> drag_delta(handle, start, pivot, current, rules).scale_x
            == ONE && moved(
            initial,
            drag_delta(handle, start, pivot, current, rules),
            pivot,
            rules.snap_to_grid,
            grid,
        ).scale_x == initial.scale_x,
        handle.is_vertical_edge() ==> drag_delta(handle, start, pivot, current, rules).scale_y
            == ONE && moved(
            initial,
            drag_delta(handle, start, pivot, current, rules),
            pivot,
            rules.snap_to_grid,
            grid,
        ).scale_y == initial.scale_y,
{
    lemma_prod_one(initial.scale_x);
    lemma_prod_one(initial.scale_y);
}

/// Unless the aspect ratio is kept, an update of a drag of an edge handle
/// returns every element with the scale it had across that edge's own axis.
pub proof fn law_edge_keeps_other_axis_in_update(engine: EngineView, current: Point, id: u32)
    requires
        engine.session is Some,
        !engine.rules().maintain_aspect || engine.rules().lock_scale,
        engine.update_outcome(current).unwrap().contains_key(id),
    ensures
        engine.session.unwrap().handle_type.is_horizontal_edge() ==> engine.update_outcome(
            current,
        ).unwrap()[id].scale_x == engine.session.unwrap().initial_states[id].transform.scale_x,
        engine.session.unwrap().handle_type.is_vertical_edge() ==> engine.update_outcome(
            current,
        ).unwrap()[id].scale_y == engine.session.unwrap().initial_states[id].transform.scale_y,
{
    let session = engine.session.unwrap();
    if session.handle_type.is_horizontal_edge() || session.handle_type.is_vertical_edge() {
        law_edge_keeps_other_axis(
            session.initial_states[id].transform,
            session.handle_type,
            session.start_point,
            session.origin,
            current,
            engine.rules(),
            engine.grid.size,
        );
    }
}

/// The extent of some boxes reaches every one of them.
pub proof fn law_extent_covers(boxes: Seq<BoundingBox>, i: int)
    requires
        0 <= i < boxes.len(),
    ensures
        extent_of(boxes).left <= boxes[i].x,
        extent_of(boxes).right >= boxes[i].right(),
        extent_of(boxes).top <= boxes[i].y,
        extent_of(boxes).bottom >= boxes[i].bottom(),
    decreases boxes.len(),
{
    if i < boxes.len() - 1 {
        law_extent_covers(boxes.drop_last(), i);
    }
}

/// The extent of one box or more reaches no further than its boxes do: each
/// side is the side of one of them.
pub proof fn law_extent_touches(boxes: Seq<BoundingBox>)
    requires
        boxes.len() > 0,
    ensures
        exists|i: int| 0 <= i < boxes.len() && extent_of(boxes).left == boxes[i].x,
        exists|i: int| 0 <= i < boxes.len() && extent_of(boxes).right == boxes[i].right(),
        exists|i: int| 0 <= i < boxes.len() && extent_of(boxes).top == boxes[i].y,
        exists|i: int| 0 <= i < boxes.len() && extent_of(boxes).bottom == boxes[i].bottom(),
    decreases boxes.len(),
{
    let last = boxes.len() - 1;
    let rest = boxes.drop_last();
    if rest.len() == 0 {
        assert(extent_of(rest) == (Extent {
            left: i64::MAX,
            right: i64::MIN,
            top: i64::MAX,
            bottom: i64::MIN,
        }));
        assert(extent_of(boxes).left == boxes[last].x);
        assert(extent_of(boxes).right == boxes[last].right());
        assert(extent_of(boxes).top == boxes[last].y);
        assert(extent_of(boxes).bottom == boxes[last].bottom());
    } else {
        law_extent_touches(rest);
        let l = choose|i: int| 0 <= i < rest.len() && extent_of(rest).left == rest[i].x;
        let r = choose|i: int| 0 <= i < rest.len() && extent_of(rest).right == rest[i].right();
        let t = choose|i: int| 0 <= i < rest.len() && extent_of(rest).top == rest[i].y;
        let b = choose|i: int| 0 <= i < rest.len() && extent_of(rest).bottom == rest[i].bottom();
        assert(extent_of(boxes).left == boxes[l].x || extent_of(boxes).left == boxes[last].x);
        assert(extent_of(boxes).right == boxes[r].right() || extent_of(boxes).right
            == boxes[last].right());
        assert(extent_of(boxes).top == boxes[t].y || extent_of(boxes).top == boxes[last].y);
        assert(extent_of(boxes).bottom == boxes[b].bottom() || extent_of(boxes).bottom
            == boxes[last].bottom());
    }
}

/// Aligning moves an element along one axis only: its translation on the
/// other axis, its scale, its rotation and its skew stay as they were.
pub proof fn law_alignment_keeps_other_axis(
    element: VectorElement,
    mode: Alignment,
    extent: Extent,
)
    ensures
        translated(
            element,
            alignment_offset(mode, extent, element.bounds_of()),
        ).transform_of() == element.transform_of().with_translation(
            sum(
                element.transform_of().translate_x,
                alignment_offset(mode, extent, element.bounds_of()).x,
            ),
            sum(
                element.transform_of().translate_y,
                alignment_offset(mode, extent, element.bounds_of()).y,
            ),
        ),
        mode == Alignment::Left || mode == Alignment::Center || mode == Alignment::Right
            ==> translated(
            element,
            alignment_offset(mode, extent, element.bounds_of()),
        ).transform_of().translate_y == element.transform_of().translate_y,
        mode == Alignment::Top || mode == Alignment::Middle || mode == Alignment::Bottom
            ==> translated(
            element,
            alignment_offset(mode, extent, element.bounds_of()),
        ).transform_of().translate_x == element.transform_of().translate_x,
{
    let offset = alignment_offset(mode, extent, element.bounds_of());
    law_translation_only_moves(element.transform_of(), offset.x, offset.y, Point { x: 0, y: 0 });
}

/// Whether `line` is the position of a guide that runs in the given
/// direction or, where objects count, a line of one of the boxes that runs in
/// that direction.
pub open spec fn is_snap_line(
    guides: Seq<AlignmentGuide>,
    boxes: Seq<BoundingBox>,
    snap_objects: bool,
    orientation: Orientation,
    line: Scalar,
) -> bool {
    ||| exists|i: int|
        0 <= i < guides.len() && (#[trigger] guides[i]).orientation == orientation
            && guides[i].position == line
    ||| snap_objects && exists|k: int|
        0 <= k < boxes.len() && box_lines(#[trigger] boxes[k], orientation).contains(line)
}

/// Snapping moves a coordinate only onto a line of its own axis that lies
/// within the threshold of it: x onto a vertical guide or the left edge,
/// right edge or centre x of a box, y onto a horizontal guide or the top
/// edge, bottom edge or centre y of a box. A coordinate that is not moved so
/// stays as it came in.
pub proof fn law_snap_stays_on_axis(
    guides: Seq<AlignmentGuide>,
    boxes: Seq<BoundingBox>,
    snap_objects: bool,
    threshold: Scalar,
    point: Point,
)
    ensures
        snapped_to_guides(guides, boxes, snap_objects, threshold, point).x == point.x || (within(
            point.x,
            snapped_to_guides(guides, boxes, snap_objects, threshold, point).x,
            threshold,
        ) && is_snap_line(
            guides,
            boxes,
            snap_objects,
            Orientation::Vertical,
            snapped_to_guides(guides, boxes, snap_objects, threshold, point).x,
        )),
        snapped_to_guides(guides, boxes, snap_objects, threshold, point).y == point.y || (within(
            point.y,
            snapped_to_guides(guides, boxes, snap_objects, threshold, point).y,
            threshold,
        ) && is_snap_line(
            guides,
            boxes,
            snap_objects,
            Orientation::Horizontal,
            snapped_to_guides(guides, boxes, snap_objects, threshold, point).y,
        )),
{
    lemma_snap_line(guides, boxes, snap_objects, Orientation::Vertical, threshold, point.x);
    lemma_snap_line(guides, boxes, snap_objects, Orientation::Horizontal, threshold, point.y);
}

/// One coordinate after snapping is the coordinate itself or a line of its
/// axis within reach.
proof fn lemma_snap_line(
    guides: Seq<AlignmentGuide>,
    boxes: Seq<BoundingBox>,
    snap_objects: bool,
    orientation: Orientation,
    threshold: Scalar,
    probe: Scalar,
)
    ensures
        ({
            let r = last_match(
                snap_candidates(guides, orientation, boxes, snap_objects),
                probe,
                threshold,
                probe,
            );
            r == probe || (within(probe, r, threshold) && is_snap_line(
                guides,
                boxes,
                snap_objects,
                orientation,
                r,
            ))
        }),
{
    let candidates = snap_candidates(guides, orientation, boxes, snap_objects);
    let r = last_match(candidates, probe, threshold, probe);
    lemma_last_match_is_candidate(candidates, probe, threshold, probe);
    if r != probe {
        let j = choose|j: int| 0 <= j < candidates.len() && candidates[j] == r;
        let from_guides = guide_lines(guides, orientation);
        if j < from_guides.len() {
            assert(from_guides[j] == r);
            lemma_guide_line_is_guide(guides, orientation, r);
        } else {
            let from_boxes = object_lines(boxes, orientation);
            assert(snap_objects);
            assert(from_boxes[j - from_guides.len()] == r);
            lemma_object_line_is_box_line(boxes, orientation, r);
        }
    }
}

/// Where objects count and a line of a box lies within the threshold of a
/// coordinate, the guides have no say on that axis: the coordinate goes to
/// what the boxes alone would give, a line of a box within reach.
pub proof fn law_object_overrides_guide(
    guides: Seq<AlignmentGuide>,
    boxes: Seq<BoundingBox>,
    orientation: Orientation,
    threshold: Scalar,
    probe: Scalar,
    at: int,
)
    requires
        0 <= at < object_lines(boxes, orientation).len(),
        within(probe, object_lines(boxes, orientation)[at], threshold),
    ensures
        last_match(snap_candidates(guides, orientation, boxes, true), probe, threshold, probe)
            == last_match(object_lines(boxes, orientation), probe, threshold, probe),
        object_lines(boxes, orientation).contains(
            last_match(snap_candidates(guides, orientation, boxes, true), probe, threshold, probe),
        ),
{
    let from_guides = guide_lines(guides, orientation);
    let from_boxes = object_lines(boxes, orientation);
    lemma_last_match_concat(from_guides, from_boxes, probe, threshold, probe);
    lemma_last_match_ignores_fallback(
        from_boxes,
        probe,
        threshold,
        last_match(from_guides, probe, threshold, probe),
        probe,
        at,
    );
}

/// With one box whose left edge alone, of its vertical lines, lies within the
/// threshold of x, x goes to that left edge whatever the guides; and so for
/// its top edge and y.
pub proof fn law_near_edge_wins(
    guides: Seq<AlignmentGuide>,
    bounds: BoundingBox,
    orientation: Orientation,
    threshold: Scalar,
    probe: Scalar,
)
    requires
        within(probe, box_lines(bounds, orientation)[0], threshold),
        !within(probe, box_lines(bounds, orientation)[1], threshold),
        !within(probe, box_lines(bounds, orientation)[2], threshold),
    ensures
        last_match(
            snap_candidates(guides, orientation, seq![bounds], true),
            probe,
            threshold,
            probe,
        ) == box_lines(bounds, orientation)[0],
{
    let boxes = seq![bounds];
    let own = box_lines(bounds, orientation);
    assert(boxes.drop_last() =~= Seq::<BoundingBox>::empty());
    assert(object_lines(boxes.drop_last(), orientation) =~= Seq::<Scalar>::empty());
    assert(object_lines(boxes, orientation) =~= own);
    law_object_overrides_guide(guides, boxes, orientation, threshold, probe, 0);
    assert(own.drop_last().last() == own[1]);
    assert(own.drop_last().drop_last().last() == own[0]);
    assert(last_match(own.drop_last().drop_last(), probe, threshold, probe) == own[0]);
    assert(last_match(own.drop_last(), probe, threshold, probe) == own[0]);
}

/// Whether no two of the hit boxes share a point.
pub open spec fn boxes_apart(handles: Seq<Handle>) -> bool {
    forall|i: int, j: int|
        0 <= i < handles.len() && 0 <= j < handles.len() && i != j ==> !(
        #[trigger] handles[i]).bounds.overlaps((#[trigger] handles[j]).bounds)
}

/// The positions of the corner handles in the order of generation.
pub open spec fn corner_index(corner: HandleType) -> int {
    match corner {
        HandleType::TopLeft => 0,
        HandleType::TopRight => 1,
        HandleType::BottomLeft => 2,
        _ => 3,
    }
}

/// A square of a side that is not negative holds its own centre.
pub proof fn lemma_hit_box_holds_centre(position: Point, size: Scalar)
    requires
        size >= 0,
    ensures
        hit_box(position, size).contains(position),
{
    lemma_half_bounds(size);
}

/// A point that lies exactly where a corner handle sits is reported as that
/// corner, given hit boxes of a side that is not negative, no two of which
/// share a point.
pub proof fn law_corner_hit(
    bounds: BoundingBox,
    size: Scalar,
    rotation_offset: Scalar,
    corner: HandleType,
)
    requires
        corner.is_corner(),
        size >= 0,
        boxes_apart(handle_layout(bounds, size, rotation_offset)),
    ensures
        hit_kind(
            handle_layout(bounds, size, rotation_offset),
            anchor(bounds, corner, rotation_offset),
        ) == Some(corner),
{
    let handles = handle_layout(bounds, size, rotation_offset);
    let point = anchor(bounds, corner, rotation_offset);
    let at = corner_index(corner);
    assert(handle_order()[at] == corner);
    assert(handles[at] == handle_at(bounds, corner, size, rotation_offset));
    lemma_hit_box_holds_centre(point, size);
    assert forall|j: int| 0 <= j < at implies !(#[trigger] handles[j]).bounds.contains(point) by {
        if handles[j].bounds.contains(point) {
            assert(handles[j].bounds.overlaps(handles[at].bounds));
        }
    }
    assert(is_first_hit(handles, point, at));
    lemma_first_hit_unique(handles, point, at);
}

} // verus!
