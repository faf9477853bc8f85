//! The transform engine: the settings of the editor's manipulation core and
//! the one manipulation that may be in progress.
use crate::alignment::{
    align, aligned, alignment_named, apply_delta, parse_alignment, rescaled, transformed,
    translated, turned,
};
use crate::constraint::{ConstraintSet, ConstraintType};
use crate::element::{GridSettings, Selection, VectorElement};
use crate::geometry::{BoundingBox, Point};
use crate::guides::{
    lasting, purge_temporary, remove_by_id, snap_point, snap_to_guides, snapped_to_grid,
    snapped_to_guides, without_id, AlignmentGuide, Orientation,
};
use crate::handles::{
    cursor_for, cursor_of, first_hit_index, generate_handles, handle_layout, hit_handle, hit_kind,
    hit_test, Handle, HandleType,
};
use crate::rotation::Rotation;
use crate::scalar::{div_fixed, quot, Scalar, ONE};
use crate::session::{
    all_known, calculate_combined_bounds, capture, constrain, constrained, knows_all, pivot_point,
    rules_of, session_origin, snapshot_transforms, snapshots_of, transforms_of, update_result,
    DragRules, SessionView, TransformSession,
};
use crate::transform::Transform;
use crate::viewport::Viewport;
use rustc_hash::FxHashMap;
use vstd::prelude::*;

verus! {

/// The side of a handle's hit box on screen: eight pixels.
pub const HANDLE_SIZE: i64 = 8_000_000;

/// How far above the top edge the rotation handle floats on screen: twenty pixels.
pub const ROTATION_OFFSET: i64 = 20_000_000;

/// Why a manipulation could not begin.
#[derive(Clone, Copy, Debug, PartialEq, Eq, Structural)]
pub enum TransformError {
    /// A manipulation is in progress; it has to be finished or cancelled first.
    AlreadyInProgress,
    /// An element was selected for which no snapshot was supplied.
    UnknownElement,
    /// No element was selected.
    InvalidSelection,
}

/// The orchestrator: grid and snap settings, the constraint set, the guides,
/// the viewport, and at most one manipulation in progress.
#[derive(Clone, Debug)]
pub struct TransformEngine {
    grid: GridSettings,
    snap_threshold: Scalar,
    constraints: ConstraintSet,
    active_guides: Vec<AlignmentGuide>,
    viewport: Viewport,
    current_transform: Option<TransformSession>,
}

/// The engine as contracts see it.
pub ghost struct EngineView {
    pub grid: GridSettings,
    pub snap_threshold: Scalar,
    /// Whether each rule is switched on.
    pub constraints: Map<ConstraintType, bool>,
    pub guides: Seq<AlignmentGuide>,
    pub viewport: Viewport,
    /// The manipulation in progress, if there is one.
    pub session: Option<SessionView>,
}

impl View for TransformEngine {
    type V = EngineView;

    closed spec fn view(&self) -> EngineView {
        EngineView {
            grid: self.grid,
            snap_threshold: self.snap_threshold,
            constraints: self.constraints@,
            guides: self.active_guides@,
            viewport: self.viewport,
            session: match self.current_transform {
                Some(session) => Some(session@),
                None => None,
            },
        }
    }
}

impl EngineView {
    /// The side of a handle's hit box in the document: the screen size
    /// divided by the zoom.
    pub open spec fn handle_size(self) -> Scalar {
        quot(HANDLE_SIZE, self.viewport.zoom)
    }

    /// How far above the top edge the rotation handle floats in the document.
    pub open spec fn rotation_offset(self) -> Scalar {
        quot(ROTATION_OFFSET, self.viewport.zoom)
    }

    /// The handles of `bounds` at the current zoom.
    pub open spec fn handles_of(self, bounds: BoundingBox) -> Seq<Handle> {
        handle_layout(bounds, self.handle_size(), self.rotation_offset())
    }

    /// The switches that bear on a drag.
    pub open spec fn rules(self) -> DragRules {
        rules_of(self.constraints)
    }

    /// Whether points snap to the grid: the grid shows and snapping is on.
    pub open spec fn grid_snaps(self) -> bool {
        self.grid.enabled && self.grid.snap
    }

    /// Whether a manipulation is in progress.
    pub open spec fn is_active(self) -> bool {
        self.session is Some
    }

    /// How an attempt to begin a manipulation ends: it fails while another is
    /// in progress, then when nothing is selected, then when a selected
    /// element has no snapshot, and succeeds otherwise.
    pub open spec fn start_outcome(
        self,
        element_ids: Seq<u32>,
        supplied: Map<u32, (Transform, BoundingBox)>,
    ) -> Result<(), TransformError> {
        if self.session is Some {
            Err(TransformError::AlreadyInProgress)
        } else if element_ids.len() == 0 {
            Err(TransformError::InvalidSelection)
        } else if !all_known(element_ids, supplied) {
            Err(TransformError::UnknownElement)
        } else {
            Ok(())
        }
    }

    /// The engine after an attempt to begin a manipulation: with the
    /// manipulation in progress if the attempt succeeds, unchanged if not.
    pub open spec fn after_start(
        self,
        element_ids: Seq<u32>,
        handle_type: HandleType,
        start_point: Point,
        supplied: Map<u32, (Transform, BoundingBox)>,
    ) -> EngineView {
        if self.start_outcome(element_ids, supplied) is Ok {
            EngineView {
                session: Some(started(element_ids, handle_type, start_point, supplied)),
                ..self
            }
        } else {
            self
        }
    }

    /// What an update for the pointer position `current` returns.
    pub open spec fn update_outcome(self, current: Point) -> Option<Map<u32, Transform>> {
        match self.session {
            Some(session) => Some(update_result(session, self.rules(), self.grid.size, current)),
            None => None,
        }
    }

    /// The engine after an update: the manipulation keeps what the update
    /// returned as its current transforms, and nothing else changes.
    pub open spec fn after_update(self, current: Point) -> EngineView {
        match self.session {
            Some(session) => EngineView {
                session: Some(
                    SessionView {
                        current_transforms: update_result(
                            session,
                            self.rules(),
                            self.grid.size,
                            current,
                        ),
                        ..session
                    },
                ),
                ..self
            },
            None => self,
        }
    }

    /// What finishing returns: the current transforms of the manipulation.
    pub open spec fn finish_outcome(self) -> Option<Map<u32, Transform>> {
        match self.session {
            Some(session) => Some(session.current_transforms),
            None => None,
        }
    }

    /// What cancelling returns: the transforms of the snapshots.
    pub open spec fn cancel_outcome(self) -> Option<Map<u32, Transform>> {
        match self.session {
            Some(session) => Some(transforms_of(session.initial_states)),
            None => None,
        }
    }

    /// The engine after finishing or cancelling: idle and without temporary
    /// guides if a manipulation was in progress, unchanged if none was.
    pub open spec fn after_end(self) -> EngineView {
        match self.session {
            Some(session) => EngineView {
                session: None,
                guides: lasting(self.guides),
                ..self
            },
            None => self,
        }
    }
}

/// Whether a returned map, if there is one, holds what the outcome says.
pub open spec fn matches_outcome(
    returned: Option<FxHashMap<u32, Transform>>,
    outcome: Option<Map<u32, Transform>>,
) -> bool {
    match returned {
        Some(map) => outcome == Some(map@),
        None => outcome is None,
    }
}

/// The manipulation that begins when `handle_type` is grabbed at
/// `start_point` with the given selection and snapshots: the pivot lies
/// across the selection's bounds from the handle, and the current transforms
/// are those of the snapshots.
pub open spec fn started(
    element_ids: Seq<u32>,
    handle_type: HandleType,
    start_point: Point,
    supplied: Map<u32, (Transform, BoundingBox)>,
) -> SessionView {
    SessionView {
        element_ids,
        start_point,
        origin: session_origin(element_ids, snapshots_of(supplied), handle_type, start_point),
        handle_type,
        initial_states: snapshots_of(supplied),
        current_transforms: transforms_of(snapshots_of(supplied)),
    }
}

/// The guide that `add_alignment_guide` appends.
pub open spec fn new_guide(
    count: nat,
    orientation: Orientation,
    position: Scalar,
    element_ids: Vec<u32>,
    temporary: bool,
) -> AlignmentGuide {
    AlignmentGuide {
        id: (count % 0x1_0000_0000) as u32,
        orientation,
        position,
        element_ids,
        temporary,
    }
}

impl TransformEngine {
    /// An idle engine: a hidden grid of ten units that nothing snaps to, a
    /// snap threshold of five units, every rule off, no guides, and a
    /// viewport of 800 by 600 at the origin with a zoom of one.
    pub fn new() -> (engine: TransformEngine)
        ensures
            engine@.session is None,
            engine@.guides.len() == 0,
            engine@.constraints == Map::total(|kind: ConstraintType| false),
            engine@.snap_threshold == 5 * ONE,
            !engine@.grid.enabled,
            !engine@.grid.snap,
            engine@.grid.size == 10 * ONE,
            engine@.grid.opacity == ONE / 2,
            engine@.grid.color@ == "#E0E0E0"@,
            engine@.viewport == (Viewport {
                x: 0,
                y: 0,
                zoom: ONE,
                width: 800_000_000,
                height: 600_000_000,
            }),
    {
        TransformEngine {
            grid: GridSettings {
                enabled: false,
                size: 10 * ONE,
                color: "#E0E0E0".to_owned(),
                opacity: ONE / 2,
                snap: false,
            },
            snap_threshold: 5 * ONE,
            constraints: ConstraintSet::new(),
            active_guides: Vec::new(),
            viewport: Viewport::new(0, 0, ONE, 800 * ONE, 600 * ONE),
            current_transform: None,
        }
    }

    /// Begins a manipulation of `element_ids` by the handle `handle_type`,
    /// grabbed at `start_point`. `element_bounds` supplies the transform and
    /// bounds of each element as they are now.
    ///
    /// Fails, leaving the engine as it was, when a manipulation is already in
    /// progress, when nothing is selected, or when a selected element has no
    /// snapshot; the first of these that applies is reported.
    pub fn start_transform(
        &mut self,
        element_ids: Vec<u32>,
        handle_type: HandleType,
        start_point: Point,
        element_bounds: FxHashMap<u32, (Transform, BoundingBox)>,
    ) -> (r: Result<(), TransformError>)
        ensures
            r == old(self)@.start_outcome(element_ids@, element_bounds@),
            final(self)@ == old(self)@.after_start(
                element_ids@,
                handle_type,
                start_point,
                element_bounds@,
            ),
    {
        if self.current_transform.is_some() {
            return Err(TransformError::AlreadyInProgress);
        }
        if element_ids.len() == 0 {
            return Err(TransformError::InvalidSelection);
        }
        if !knows_all(&element_ids, &element_bounds) {
            return Err(TransformError::UnknownElement);
        }
        let initial_states = capture(&element_bounds);
        let origin = match calculate_combined_bounds(&element_ids, &initial_states) {
            Some(bounds) => pivot_point(&bounds, handle_type),
            None => start_point,
        };
        let current_transforms = snapshot_transforms(&initial_states);
        self.current_transform = Some(
            TransformSession {
                element_ids,
                start_point,
                origin,
                handle_type,
                initial_states,
                current_transforms,
            },
        );
        Ok(())
    }

    /// The transforms of the selected elements for the pointer position
    /// `current_point`, each computed from the element's snapshot; they are
    /// also kept as the manipulation's current transforms. Without a
    /// manipulation in progress nothing happens and nothing is returned.
    pub fn update_transform(&mut self, current_point: Point) -> (r: Option<FxHashMap<u32, Transform>>)
        ensures
            matches_outcome(r, old(self)@.update_outcome(current_point)),
            final(self)@ == old(self)@.after_update(current_point),
    {
        let rules = self.drag_rules();
        let grid = self.grid.size;
        match &mut self.current_transform {
            Some(session) => {
                let transforms = session.transforms_at(&rules, grid, &current_point);
                session.current_transforms = transforms.clone();
                Some(transforms)
            },
            None => None,
        }
    }

    /// Ends the manipulation and hands out the transforms of the latest
    /// update, or those of the snapshots if there was none. Temporary guides
    /// go. Without a manipulation in progress nothing happens.
    pub fn finish_transform(&mut self) -> (r: Option<FxHashMap<u32, Transform>>)
        ensures
            matches_outcome(r, old(self)@.finish_outcome()),
            final(self)@ == old(self)@.after_end(),
    {
        match self.current_transform.take() {
            Some(session) => {
                purge_temporary(&mut self.active_guides);
                Some(session.current_transforms)
            },
            None => None,
        }
    }

    /// Ends the manipulation and hands out the transforms that the elements
    /// had when it began. Temporary guides go. Without a manipulation in
    /// progress nothing happens.
    pub fn cancel_transform(&mut self) -> (r: Option<FxHashMap<u32, Transform>>)
        ensures
            matches_outcome(r, old(self)@.cancel_outcome()),
            final(self)@ == old(self)@.after_end(),
    {
        match self.current_transform.take() {
            Some(session) => {
                purge_temporary(&mut self.active_guides);
                Some(snapshot_transforms(&session.initial_states))
            },
            None => None,
        }
    }

    /// Whether the rule is switched on.
    pub fn is_constraint_enabled(&self, constraint_type: ConstraintType) -> (r: bool)
        ensures
            r == self@.constraints[constraint_type],
    {
        self.constraints.is_enabled(constraint_type)
    }

    /// Switches the rule on or off.
    pub fn set_constraint(&mut self, constraint_type: ConstraintType, enabled: bool)
        ensures
            final(self)@ == (EngineView {
                constraints: old(self)@.constraints.insert(constraint_type, enabled),
                ..old(self)@
            }),
    {
        self.constraints.set_enabled(constraint_type, enabled);
    }

    /// The switches that bear on a drag, as they stand.
    pub fn drag_rules(&self) -> (rules: DragRules)
        ensures
            rules == self@.rules(),
    {
        DragRules {
            lock_scale: self.constraints.is_enabled(ConstraintType::LockScale),
            maintain_aspect: self.constraints.is_enabled(ConstraintType::MaintainAspectRatio),
            lock_rotation: self.constraints.is_enabled(ConstraintType::LockRotation),
            snap_to_grid: self.constraints.is_enabled(ConstraintType::SnapToGrid),
        }
    }

    /// A delta after the switches that are on: a locked scale, a kept aspect
    /// ratio, a locked rotation.
    pub fn apply_constraints(&self, delta: &Transform) -> (t: Transform)
        ensures
            t == constrained(*delta, self@.rules()),
    {
        constrain(delta, &self.drag_rules())
    }

    /// The ten handles of `bounds`, sized for the current zoom so that they
    /// look the same on screen at every zoom.
    pub fn calculate_handles(&self, bounds: &BoundingBox) -> (handles: Vec<Handle>)
        ensures
            handles@ == self@.handles_of(*bounds),
    {
        let handle_size = div_fixed(HANDLE_SIZE, self.viewport.zoom);
        let rotation_offset = div_fixed(ROTATION_OFFSET, self.viewport.zoom);
        generate_handles(bounds, handle_size, rotation_offset)
    }

    /// The ten handles of the selection's bounds.
    pub fn generate_selection_handles(&self, selection: &Selection) -> (handles: Vec<Handle>)
        ensures
            handles@ == self@.handles_of(selection.bounds),
    {
        self.calculate_handles(&selection.bounds)
    }

    /// The kind of the first handle, in the order given, whose hit box holds
    /// `point`.
    pub fn hit_test_handle(&self, point: Point, handles: &[Handle]) -> (r: Option<HandleType>)
        ensures
            r == hit_kind(handles@, point),
    {
        hit_test(&point, handles)
    }

    /// The first handle, in the order given, whose hit box holds `point`.
    pub fn get_handle_at_point(&self, handles: &[Handle], point: &Point) -> (r: Option<Handle>)
        ensures
            r == hit_handle(handles@, *point),
    {
        match first_hit_index(point, handles) {
            Some(i) => Some(handles[i]),
            None => None,
        }
    }

    /// The cursor that the handle asks for.
    pub fn cursor_for_handle(&self, handle_type: HandleType) -> (cursor: &'static str)
        ensures
            cursor@ == cursor_of(handle_type),
    {
        cursor_for(handle_type)
    }

    /// `point` after snapping: to the guides and, where the object rule is
    /// on, to the edges and centre lines of `element_bounds`, each within the
    /// snap threshold. x goes to vertical lines only and y to horizontal
    /// ones, and on either axis an object overrides a guide.
    pub fn snap_point_to_guides(&self, point: Point, element_bounds: &[BoundingBox]) -> (r: Point)
        ensures
            r == snapped_to_guides(
                self@.guides,
                element_bounds@,
                self@.constraints[ConstraintType::SnapToObject],
                self@.snap_threshold,
                point,
            ),
    {
        let snap_objects = self.constraints.is_enabled(ConstraintType::SnapToObject);
        snap_to_guides(
            self.active_guides.as_slice(),
            element_bounds,
            snap_objects,
            self.snap_threshold,
            point,
        )
    }

    /// `point` moved onto the grid, if the grid shows and snapping is on;
    /// `point` itself otherwise.
    pub fn snap_to_grid(&self, point: &Point) -> (r: Point)
        ensures
            r == (if self@.grid_snaps() {
                snapped_to_grid(*point, self@.grid.size)
            } else {
                *point
            }),
    {
        if !self.grid.enabled || !self.grid.snap {
            return *point;
        }
        snap_point(point, self.grid.size)
    }

    /// Adds a lasting guide and returns its id: the number of guides there
    /// were, cut to 32 bits.
    pub fn add_alignment_guide(
        &mut self,
        orientation: Orientation,
        position: Scalar,
        element_ids: Vec<u32>,
    ) -> (id: u32)
        ensures
            id == new_guide(old(self)@.guides.len(), orientation, position, element_ids, false).id,
            final(self)@ == (EngineView {
                guides: old(self)@.guides.push(
                    new_guide(old(self)@.guides.len(), orientation, position, element_ids, false),
                ),
                ..old(self)@
            }),
    {
        self.push_guide(orientation, position, element_ids, false)
    }

    /// Adds a guide that lives until the manipulation ends, and returns its id.
    pub fn add_temporary_guide(
        &mut self,
        orientation: Orientation,
        position: Scalar,
        element_ids: Vec<u32>,
    ) -> (id: u32)
        ensures
            id == new_guide(old(self)@.guides.len(), orientation, position, element_ids, true).id,
            final(self)@ == (EngineView {
                guides: old(self)@.guides.push(
                    new_guide(old(self)@.guides.len(), orientation, position, element_ids, true),
                ),
                ..old(self)@
            }),
    {
        self.push_guide(orientation, position, element_ids, true)
    }

    fn push_guide(
        &mut self,
        orientation: Orientation,
        position: Scalar,
        element_ids: Vec<u32>,
        temporary: bool,
    ) -> (id: u32)
        ensures
            id == new_guide(
                old(self)@.guides.len(),
                orientation,
                position,
                element_ids,
                temporary,
            ).id,
            final(self)@ == (EngineView {
                guides: old(self)@.guides.push(
                    new_guide(
                        old(self)@.guides.len(),
                        orientation,
                        position,
                        element_ids,
                        temporary,
                    ),
                ),
                ..old(self)@
            }),
    {
        let count = self.active_guides.len();
        let id: u32 = (count as u64 % 0x1_0000_0000u64) as u32;
        self.active_guides.push(AlignmentGuide { id, orientation, position, element_ids, temporary });
        id
    }

    /// Removes every guide with the given id.
    pub fn remove_alignment_guide(&mut self, guide_id: u32)
        ensures
            final(self)@ == (EngineView {
                guides: without_id(old(self)@.guides, guide_id),
                ..old(self)@
            }),
    {
        remove_by_id(&mut self.active_guides, guide_id);
    }

    /// Removes every guide.
    pub fn clear_alignment_guides(&mut self)
        ensures
            final(self)@ == (EngineView { guides: Seq::empty(), ..old(self)@ }),
    {
        self.active_guides.clear();
    }

    /// Removes the temporary guides.
    pub fn clear_temporary_guides(&mut self)
        ensures
            final(self)@ == (EngineView { guides: lasting(old(self)@.guides), ..old(self)@ }),
    {
        purge_temporary(&mut self.active_guides);
    }

    /// The guides, in the order in which they were added.
    pub fn guides(&self) -> (r: &[AlignmentGuide])
        ensures
            r@ == self@.guides,
    {
        self.active_guides.as_slice()
    }

    pub fn set_grid_size(&mut self, size: Scalar)
        ensures
            final(self)@ == (EngineView {
                grid: GridSettings { size, ..old(self)@.grid },
                ..old(self)@
            }),
    {
        self.grid.size = size;
    }

    pub fn set_snap_threshold(&mut self, threshold: Scalar)
        ensures
            final(self)@ == (EngineView { snap_threshold: threshold, ..old(self)@ }),
    {
        self.snap_threshold = threshold;
    }

    pub fn grid_size(&self) -> (r: Scalar)
        ensures
            r == self@.grid.size,
    {
        self.grid.size
    }

    pub fn snap_threshold(&self) -> (r: Scalar)
        ensures
            r == self@.snap_threshold,
    {
        self.snap_threshold
    }

    /// Replaces the grid settings.
    pub fn set_grid(&mut self, enabled: bool, size: Scalar, color: String, opacity: Scalar, snap: bool)
        ensures
            final(self)@ == (EngineView {
                grid: GridSettings { enabled, size, color, opacity, snap },
                ..old(self)@
            }),
    {
        self.grid = GridSettings { enabled, size, color, opacity, snap };
    }

    pub fn set_viewport(&mut self, viewport: Viewport)
        ensures
            final(self)@ == (EngineView { viewport, ..old(self)@ }),
    {
        self.viewport = viewport;
    }

    pub fn get_viewport(&self) -> (r: &Viewport)
        ensures
            *r == self@.viewport,
    {
        &self.viewport
    }

    /// Whether a manipulation is in progress.
    pub fn is_transforming(&self) -> (r: bool)
        ensures
            r == self@.is_active(),
    {
        self.current_transform.is_some()
    }

    /// The elements under manipulation, if one is in progress.
    pub fn transforming_elements(&self) -> (r: Option<&[u32]>)
        ensures
            match r {
                Some(ids) => self@.session is Some && ids@ == self@.session.unwrap().element_ids,
                None => self@.session is None,
            },
    {
        match &self.current_transform {
            Some(session) => Some(session.element_ids.as_slice()),
            None => None,
        }
    }

    /// The element with `delta` applied about `origin`.
    pub fn transform_element(&self, element: VectorElement, delta: &Transform, origin: &Point) -> (r:
        VectorElement)
        ensures
            r == transformed(element, *delta, *origin),
    {
        apply_delta(element, delta, origin)
    }

    /// The element moved by `offset`.
    pub fn translate_element(&self, element: VectorElement, offset: &Point) -> (r: VectorElement)
        ensures
            r == translated(element, *offset),
    {
        let delta = Transform::translate(offset.x, offset.y);
        apply_delta(element, &delta, &Point { x: 0, y: 0 })
    }

    /// The element scaled by the factors `scale.x` and `scale.y` about `origin`.
    pub fn scale_element(&self, element: VectorElement, scale: &Point, origin: &Point) -> (r:
        VectorElement)
        ensures
            r == rescaled(element, *scale, *origin),
    {
        let delta = Transform::scale(scale.x, scale.y);
        apply_delta(element, &delta, origin)
    }

    /// The element turned by `rotation` about `origin`.
    pub fn rotate_element(&self, element: VectorElement, rotation: Rotation, origin: &Point) -> (r:
        VectorElement)
        ensures
            r == turned(element, rotation, *origin),
    {
        let delta = Transform::rotate(rotation);
        apply_delta(element, &delta, origin)
    }

    /// The elements brought onto a common line: `left`, `center` or `right`
    /// move along x, `top`, `middle` or `bottom` along y. Fewer than two
    /// elements, or another word, and they come back as they are.
    pub fn align_elements(&self, elements: Vec<VectorElement>, alignment: &str) -> (r: Vec<
        VectorElement,
    >)
        ensures
            r@ == aligned(elements@, alignment_named(alignment@)),
    {
        align(elements, parse_alignment(alignment))
    }
}

} // verus!
