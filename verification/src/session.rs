//! One manipulation in progress, and the rules that turn a pointer position
//! into a transform for each selected element.
//!
//! Every result is computed from the snapshot taken when the manipulation
//! began, never from the previous pointer position, so the same position
//! always gives the same transforms.
use crate::constraint::ConstraintType;
use crate::geometry::{BoundingBox, Point};
use crate::handles::{anchor, anchor_point, HandleType};
use crate::idmap::{fx_get, fx_insert, fx_keys};
use crate::rotation::Rotation;
use crate::scalar::{
    abs_sat, diff, div_fixed, greater, is_within, mag, max_of, neg, neg_sat, quot,
    snap_to_multiple, snapped, sub_sat, within, Scalar, ONE,
};
use crate::transform::{combine_transforms, combined_about, Transform};
use rustc_hash::FxHashMap;
use vstd::prelude::*;

verus! {

/// A drag that starts closer than this to the pivot on either axis gives no
/// usable ratio and does not scale: one ten-thousandth.
pub const EPSILON: i64 = 100;

/// What an element looked like when the manipulation began.
#[derive(Clone, Copy, Debug, PartialEq, Eq, Structural)]
pub struct ElementSnapshot {
    pub transform: Transform,
    pub bounds: BoundingBox,
}

/// A manipulation in progress.
#[derive(Clone, Debug)]
pub struct TransformSession {
    pub element_ids: Vec<u32>,
    pub start_point: Point,
    pub origin: Point,
    pub handle_type: HandleType,
    pub initial_states: FxHashMap<u32, ElementSnapshot>,
    pub current_transforms: FxHashMap<u32, Transform>,
}

/// A manipulation in progress, as contracts see it.
pub ghost struct SessionView {
    /// The selected elements, in the order given at the start.
    pub element_ids: Seq<u32>,
    /// Where the pointer was when the manipulation began.
    pub start_point: Point,
    /// The pivot: the fixed point of every scale and rotation.
    pub origin: Point,
    /// The handle that is being dragged.
    pub handle_type: HandleType,
    /// The snapshots taken at the start.
    pub initial_states: Map<u32, ElementSnapshot>,
    /// The transforms computed for the latest pointer position.
    pub current_transforms: Map<u32, Transform>,
}

impl View for TransformSession {
    type V = SessionView;

    open spec fn view(&self) -> SessionView {
        SessionView {
            element_ids: self.element_ids@,
            start_point: self.start_point,
            origin: self.origin,
            handle_type: self.handle_type,
            initial_states: self.initial_states@,
            current_transforms: self.current_transforms@,
        }
    }
}

/// The switches that bear on a drag.
#[derive(Clone, Copy, Debug, PartialEq, Eq, Structural)]
pub struct DragRules {
    pub lock_scale: bool,
    pub maintain_aspect: bool,
    pub lock_rotation: bool,
    pub snap_to_grid: bool,
}

/// The switches that bear on a drag, read from the states of all rules.
pub open spec fn rules_of(constraints: Map<ConstraintType, bool>) -> DragRules {
    DragRules {
        lock_scale: constraints[ConstraintType::LockScale],
        maintain_aspect: constraints[ConstraintType::MaintainAspectRatio],
        lock_rotation: constraints[ConstraintType::LockRotation],
        snap_to_grid: constraints[ConstraintType::SnapToGrid],
    }
}

/// The snapshot that each supplied pair of transform and bounds becomes.
pub open spec fn snapshots_of(supplied: Map<u32, (Transform, BoundingBox)>) -> Map<
    u32,
    ElementSnapshot,
> {
    Map::new(
        |id: u32| supplied.contains_key(id),
        |id: u32| ElementSnapshot { transform: supplied[id].0, bounds: supplied[id].1 },
    )
}

/// The transform of each snapshot.
pub open spec fn transforms_of(states: Map<u32, ElementSnapshot>) -> Map<u32, Transform> {
    Map::new(|id: u32| states.contains_key(id), |id: u32| states[id].transform)
}

/// Whether every selected element has a snapshot.
pub open spec fn all_known<V>(ids: Seq<u32>, states: Map<u32, V>) -> bool {
    forall|i: int| 0 <= i < ids.len() ==> states.contains_key(#[trigger] ids[i])
}

/// The smallest box around the bounds of the selected elements that have a
/// snapshot; nothing when there is none.
pub open spec fn selection_bounds(ids: Seq<u32>, states: Map<u32, ElementSnapshot>) -> Option<
    BoundingBox,
>
    decreases ids.len(),
{
    if ids.len() == 0 {
        None
    } else {
        let rest = selection_bounds(ids.drop_last(), states);
        if !states.contains_key(ids.last()) {
            rest
        } else {
            match rest {
                None => Some(states[ids.last()].bounds),
                Some(bounds) => Some(bounds.joined(states[ids.last()].bounds)),
            }
        }
    }
}

/// The pivot of a drag of `handle` on `bounds`: where the opposite handle
/// sits. The centre and the rotation handle pivot about the centre.
pub open spec fn pivot_for(bounds: BoundingBox, handle: HandleType) -> Point {
    anchor(bounds, handle.opposite(), 0)
}

/// The pivot of a manipulation: that of the selection's bounds, or the start
/// point itself where the selection has no bounds.
pub open spec fn session_origin(
    ids: Seq<u32>,
    states: Map<u32, ElementSnapshot>,
    handle: HandleType,
    start_point: Point,
) -> Point {
    match selection_bounds(ids, states) {
        Some(bounds) => pivot_for(bounds, handle),
        None => start_point,
    }
}

/// Whether the drag starts too close to the pivot, on either axis, to give a
/// ratio.
pub open spec fn degenerate(start: Point, pivot: Point) -> bool {
    within(start.x, pivot.x, EPSILON) || within(start.y, pivot.y, EPSILON)
}

/// The scale factors that a resize handle asks for, before any switch is
/// looked at: on each axis the pointer's distance from the pivot now over its
/// distance at the start. An edge handle scales along its own axis only, and
/// a degenerate drag does not scale.
pub open spec fn raw_factors(handle: HandleType, start: Point, pivot: Point, current: Point) -> (
    Scalar,
    Scalar,
) {
    if !handle.resizes() || degenerate(start, pivot) {
        (ONE, ONE)
    } else {
        let scale_x = quot(diff(current.x, pivot.x), diff(start.x, pivot.x));
        let scale_y = quot(diff(current.y, pivot.y), diff(start.y, pivot.y));
        if handle.is_horizontal_edge() {
            (ONE, scale_y)
        } else if handle.is_vertical_edge() {
            (scale_x, ONE)
        } else {
            (scale_x, scale_y)
        }
    }
}

/// Both factors brought to the larger of their magnitudes, each keeping its
/// sign; zero counts as positive.
pub open spec fn uniform_factors(scale_x: Scalar, scale_y: Scalar) -> (Scalar, Scalar) {
    let larger = greater(mag(scale_x), mag(scale_y));
    (
        if scale_x < 0 {
            neg(larger)
        } else {
            larger
        },
        if scale_y < 0 {
            neg(larger)
        } else {
            larger
        },
    )
}

/// What dragging `handle` from `start` to `current` asks for, before any
/// switch is looked at: the centre handle moves, a corner or edge handle
/// scales, the rotation handle turns by the angle between the two pointer
/// positions as seen from the pivot.
pub open spec fn raw_delta(handle: HandleType, start: Point, pivot: Point, current: Point) -> Transform {
    if handle == HandleType::Center {
        Transform::translation(diff(current.x, start.x), diff(current.y, start.y))
    } else if handle == HandleType::Rotation {
        Transform::turning(Rotation::from_to(start.subtracted(pivot), current.subtracted(pivot)))
    } else {
        Transform::scaling(
            raw_factors(handle, start, pivot, current).0,
            raw_factors(handle, start, pivot, current).1,
        )
    }
}

/// A delta after the switches: a locked scale leaves both factors at one, a
/// kept aspect ratio makes them uniform, a locked rotation turns by nothing.
pub open spec fn constrained(delta: Transform, rules: DragRules) -> Transform {
    let factors = if rules.lock_scale {
        (ONE, ONE)
    } else if rules.maintain_aspect {
        uniform_factors(delta.scale_x, delta.scale_y)
    } else {
        (delta.scale_x, delta.scale_y)
    };
    Transform {
        scale_x: factors.0,
        scale_y: factors.1,
        rotation: if rules.lock_rotation {
            Rotation::zero()
        } else {
            delta.rotation
        },
        ..delta
    }
}

/// The delta that a drag applies to every selected element.
pub open spec fn drag_delta(
    handle: HandleType,
    start: Point,
    pivot: Point,
    current: Point,
    rules: DragRules,
) -> Transform {
    constrained(raw_delta(handle, start, pivot, current), rules)
}

/// The transform with its translation moved onto the grid, axis by axis.
pub open spec fn grid_aligned(transform: Transform, grid: Scalar) -> Transform {
    transform.with_translation(
        snapped(transform.translate_x, grid),
        snapped(transform.translate_y, grid),
    )
}

/// The transform of one element for the pointer position that gave `delta`:
/// its snapshot transform combined with the delta about the pivot, and then,
/// where the grid rule is on, its translation moved onto the grid.
pub open spec fn moved(
    initial: Transform,
    delta: Transform,
    pivot: Point,
    snap_to_grid: bool,
    grid: Scalar,
) -> Transform {
    let combined = combined_about(initial, delta, pivot);
    if snap_to_grid {
        grid_aligned(combined, grid)
    } else {
        combined
    }
}

/// The transforms of a manipulation for the pointer position `current`: one
/// for each selected element that has a snapshot.
pub open spec fn update_result(
    session: SessionView,
    rules: DragRules,
    grid: Scalar,
    current: Point,
) -> Map<u32, Transform> {
    Map::new(
        |id: u32| session.element_ids.contains(id) && session.initial_states.contains_key(id),
        |id: u32|
            moved(
                session.initial_states[id].transform,
                drag_delta(
                    session.handle_type,
                    session.start_point,
                    session.origin,
                    current,
                    rules,
                ),
                session.origin,
                rules.snap_to_grid,
                grid,
            ),
    )
}

/// The first `i + 1` ids hold what the first `i` hold, and the id at `i`.
proof fn lemma_take_next(ids: Seq<u32>, i: int)
    requires
        0 <= i < ids.len(),
    ensures
        ids.take(i + 1) == ids.take(i).push(ids[i]),
        forall|other: u32|
            #[trigger] ids.take(i + 1).contains(other) <==> (ids.take(i).contains(other) || other
                == ids[i]),
{
    let before = ids.take(i);
    let after = ids.take(i + 1);
    assert(after =~= before.push(ids[i]));
    assert forall|other: u32| after.contains(other) <==> (before.contains(other) || other
        == ids[i]) by {
        if before.contains(other) {
            let j = choose|j: int| 0 <= j < before.len() && before[j] == other;
            assert(after[j] == other);
        }
        if other == ids[i] {
            assert(after[i] == other);
        }
    }
}

/// Turns each supplied pair of transform and bounds into a snapshot.
pub fn capture(supplied: &FxHashMap<u32, (Transform, BoundingBox)>) -> (states: FxHashMap<
    u32,
    ElementSnapshot,
>)
    ensures
        states@ == snapshots_of(supplied@),
{
    let keys = fx_keys(supplied);
    let mut states: FxHashMap<u32, ElementSnapshot> = FxHashMap::default();
    let mut i: usize = 0;
    while i < keys.len()
        invariant
            i <= keys.len(),
            forall|key: u32| keys@.contains(key) <==> supplied@.contains_key(key),
            forall|id: u32|
                states@.contains_key(id) <==> keys@.take(i as int).contains(id),
            forall|id: u32|
                states@.contains_key(id) ==> states@[id] == (ElementSnapshot {
                    transform: supplied@[id].0,
                    bounds: supplied@[id].1,
                }),
        decreases keys.len() - i,
    {
        let id = keys[i];
        assert(keys@.contains(id));
        match fx_get(supplied, id) {
            Some(pair) => {
                fx_insert(
                    &mut states,
                    id,
                    ElementSnapshot { transform: pair.0, bounds: pair.1 },
                );
            },
            None => {},
        }
        proof {
            lemma_take_next(keys@, i as int);
        }
        i = i + 1;
    }
    proof {
        assert(keys@.take(keys.len() as int) =~= keys@);
        assert(states@ =~= snapshots_of(supplied@));
    }
    states
}

/// The transform of each snapshot, keyed as the snapshots are.
pub fn snapshot_transforms(states: &FxHashMap<u32, ElementSnapshot>) -> (transforms: FxHashMap<
    u32,
    Transform,
>)
    ensures
        transforms@ == transforms_of(states@),
{
    let keys = fx_keys(states);
    let mut transforms: FxHashMap<u32, Transform> = FxHashMap::default();
    let mut i: usize = 0;
    while i < keys.len()
        invariant
            i <= keys.len(),
            forall|key: u32| keys@.contains(key) <==> states@.contains_key(key),
            forall|id: u32|
                transforms@.contains_key(id) <==> keys@.take(i as int).contains(id),
            forall|id: u32|
                transforms@.contains_key(id) ==> transforms@[id] == states@[id].transform,
        decreases keys.len() - i,
    {
        let id = keys[i];
        assert(keys@.contains(id));
        match fx_get(states, id) {
            Some(state) => {
                fx_insert(&mut transforms, id, state.transform);
            },
            None => {},
        }
        proof {
            lemma_take_next(keys@, i as int);
        }
        i = i + 1;
    }
    proof {
        assert(keys@.take(keys.len() as int) =~= keys@);
        assert(transforms@ =~= transforms_of(states@));
    }
    transforms
}

/// Whether every selected element has a snapshot.
pub fn knows_all<V>(element_ids: &Vec<u32>, states: &FxHashMap<u32, V>) -> (r: bool)
    ensures
        r == all_known(element_ids@, states@),
{
    let mut i: usize = 0;
    while i < element_ids.len()
        invariant
            i <= element_ids.len(),
            forall|j: int| 0 <= j < i ==> states@.contains_key(#[trigger] element_ids@[j]),
        decreases element_ids.len() - i,
    {
        if fx_get(states, element_ids[i]).is_none() {
            return false;
        }
        i = i + 1;
    }
    true
}

/// The smallest box around the bounds of the selected elements.
pub fn calculate_combined_bounds(
    element_ids: &Vec<u32>,
    states: &FxHashMap<u32, ElementSnapshot>,
) -> (r: Option<BoundingBox>)
    ensures
        r == selection_bounds(element_ids@, states@),
{
    let mut combined: Option<BoundingBox> = None;
    let mut i: usize = 0;
    while i < element_ids.len()
        invariant
            i <= element_ids.len(),
            combined == selection_bounds(element_ids@.take(i as int), states@),
        decreases element_ids.len() - i,
    {
        proof {
            let next = element_ids@.take(i + 1);
            assert(next.drop_last() =~= element_ids@.take(i as int));
            assert(next.last() == element_ids@[i as int]);
        }
        match fx_get(states, element_ids[i]) {
            Some(state) => {
                combined = match combined {
                    None => Some(state.bounds),
                    Some(bounds) => Some(bounds.union(&state.bounds)),
                };
            },
            None => {},
        }
        i = i + 1;
    }
    assert(element_ids@.take(element_ids.len() as int) =~= element_ids@);
    combined
}

/// The pivot of a drag of `handle` on `bounds`.
pub fn pivot_point(bounds: &BoundingBox, handle: HandleType) -> (p: Point)
    ensures
        p == pivot_for(*bounds, handle),
{
    anchor_point(bounds, handle.across(), 0)
}

/// The scale factors that a resize handle asks for.
pub fn drag_factors(handle: HandleType, start: &Point, pivot: &Point, current: &Point) -> (r: (
    Scalar,
    Scalar,
))
    ensures
        r == raw_factors(handle, *start, *pivot, *current),
{
    let resizes = match handle {
        HandleType::Center | HandleType::Rotation => false,
        _ => true,
    };
    if !resizes || is_within(start.x, pivot.x, EPSILON) || is_within(start.y, pivot.y, EPSILON) {
        return (ONE, ONE);
    }
    let scale_x = div_fixed(sub_sat(current.x, pivot.x), sub_sat(start.x, pivot.x));
    let scale_y = div_fixed(sub_sat(current.y, pivot.y), sub_sat(start.y, pivot.y));
    match handle {
        HandleType::TopCenter | HandleType::BottomCenter => (ONE, scale_y),
        HandleType::MiddleLeft | HandleType::MiddleRight => (scale_x, ONE),
        _ => (scale_x, scale_y),
    }
}

/// What dragging `handle` from `start` to `current` asks for.
pub fn drag_transform(handle: HandleType, start: &Point, pivot: &Point, current: &Point) -> (t:
    Transform)
    ensures
        t == raw_delta(handle, *start, *pivot, *current),
{
    match handle {
        HandleType::Center => Transform::translate(
            sub_sat(current.x, start.x),
            sub_sat(current.y, start.y),
        ),
        HandleType::Rotation => {
            let from = start.subtract(pivot);
            let to = current.subtract(pivot);
            Transform::rotate(Rotation::between(&from, &to))
        },
        _ => {
            let factors = drag_factors(handle, start, pivot, current);
            Transform::scale(factors.0, factors.1)
        },
    }
}

/// Applies the switches to a delta.
pub fn constrain(delta: &Transform, rules: &DragRules) -> (t: Transform)
    ensures
        t == constrained(*delta, *rules),
{
    let mut scale_x = delta.scale_x;
    let mut scale_y = delta.scale_y;
    if rules.lock_scale {
        scale_x = ONE;
        scale_y = ONE;
    } else if rules.maintain_aspect {
        let larger = max_of(abs_sat(delta.scale_x), abs_sat(delta.scale_y));
        scale_x = if delta.scale_x < 0 {
            neg_sat(larger)
        } else {
            larger
        };
        scale_y = if delta.scale_y < 0 {
            neg_sat(larger)
        } else {
            larger
        };
    }
    let rotation = if rules.lock_rotation {
        Rotation::identity()
    } else {
        delta.rotation
    };
    Transform {
        translate_x: delta.translate_x,
        translate_y: delta.translate_y,
        scale_x,
        scale_y,
        rotation,
        skew_x: delta.skew_x,
        skew_y: delta.skew_y,
    }
}

/// Moves the translation of a transform onto the grid.
pub fn align_to_grid(transform: &Transform, grid: Scalar) -> (t: Transform)
    ensures
        t == grid_aligned(*transform, grid),
{
    Transform {
        translate_x: snap_to_multiple(transform.translate_x, grid),
        translate_y: snap_to_multiple(transform.translate_y, grid),
        scale_x: transform.scale_x,
        scale_y: transform.scale_y,
        rotation: transform.rotation,
        skew_x: transform.skew_x,
        skew_y: transform.skew_y,
    }
}

/// The transform of one element under `delta`.
pub fn move_element(
    initial: &Transform,
    delta: &Transform,
    pivot: &Point,
    snap_to_grid: bool,
    grid: Scalar,
) -> (t: Transform)
    ensures
        t == moved(*initial, *delta, *pivot, snap_to_grid, grid),
{
    let combined = combine_transforms(initial, delta, pivot);
    if snap_to_grid {
        align_to_grid(&combined, grid)
    } else {
        combined
    }
}

impl TransformSession {
    /// The transforms of every selected element for the pointer position
    /// `current`. The session itself is not touched.
    pub fn transforms_at(&self, rules: &DragRules, grid: Scalar, current: &Point) -> (transforms:
        FxHashMap<u32, Transform>)
        ensures
            transforms@ == update_result(self@, *rules, grid, *current),
    {
        let delta = constrain(
            &drag_transform(self.handle_type, &self.start_point, &self.origin, current),
            rules,
        );
        let mut transforms: FxHashMap<u32, Transform> = FxHashMap::default();
        let mut i: usize = 0;
        while i < self.element_ids.len()
            invariant
                i <= self.element_ids.len(),
                delta == drag_delta(
                    self.handle_type,
                    self.start_point,
                    self.origin,
                    *current,
                    *rules,
                ),
                forall|id: u32|
                    transforms@.contains_key(id) <==> (self.element_ids@.take(i as int).contains(id)
                        && self.initial_states@.contains_key(id)),
                forall|id: u32|
                    transforms@.contains_key(id) ==> transforms@[id] == moved(
                        self.initial_states@[id].transform,
                        delta,
                        self.origin,
                        rules.snap_to_grid,
                        grid,
                    ),
            decreases self.element_ids.len() - i,
        {
            let id = self.element_ids[i];
            match fx_get(&self.initial_states, id) {
                Some(state) => {
                    let updated = move_element(
                        &state.transform,
                        &delta,
                        &self.origin,
                        rules.snap_to_grid,
                        grid,
                    );
                    fx_insert(&mut transforms, id, updated);
                },
                None => {},
            }
            proof {
                lemma_take_next(self.element_ids@, i as int);
            }
            i = i + 1;
        }
        proof {
            assert(self.element_ids@.take(self.element_ids.len() as int) =~= self.element_ids@);
            assert(transforms@ =~= update_result(self@, *rules, grid, *current));
        }
        transforms
    }
}

} // verus!
