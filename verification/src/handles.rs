//! Selection handles: where they sit on a box, which one a point hits, and
//! the cursor each one asks for.
use crate::geometry::{BoundingBox, Point};
use crate::scalar::{diff, half, halve, sub_sat, Scalar};
use vstd::prelude::*;

verus! {

/// The control points of a selection.
#[derive(Clone, Copy, Debug, PartialEq, Eq, Hash, Structural)]
pub enum HandleType {
    TopLeft,
    TopCenter,
    TopRight,
    MiddleLeft,
    MiddleRight,
    BottomLeft,
    BottomCenter,
    BottomRight,
    Rotation,
    Center,
}

/// A control point as it is drawn and hit: its kind, where it sits and the
/// box in which a click counts as a hit.
#[derive(Clone, Copy, Debug, PartialEq, Eq, Structural)]
pub struct Handle {
    pub handle_type: HandleType,
    pub position: Point,
    pub bounds: BoundingBox,
}

impl HandleType {
    /// Whether the handle sits on a corner of the box.
    pub open spec fn is_corner(self) -> bool {
        self == HandleType::TopLeft || self == HandleType::TopRight || self
            == HandleType::BottomLeft || self == HandleType::BottomRight
    }

    /// Whether the handle sits in the middle of the top or the bottom edge.
    pub open spec fn is_horizontal_edge(self) -> bool {
        self == HandleType::TopCenter || self == HandleType::BottomCenter
    }

    /// Whether the handle sits in the middle of the left or the right edge.
    pub open spec fn is_vertical_edge(self) -> bool {
        self == HandleType::MiddleLeft || self == HandleType::MiddleRight
    }

    /// Whether dragging the handle resizes the selection.
    pub open spec fn resizes(self) -> bool {
        self.is_corner() || self.is_horizontal_edge() || self.is_vertical_edge()
    }

    /// The handle across the box. The centre is its own opposite, and the
    /// rotation handle turns about the centre.
    pub open spec fn opposite(self) -> HandleType {
        match self {
            HandleType::TopLeft => HandleType::BottomRight,
            HandleType::TopCenter => HandleType::BottomCenter,
            HandleType::TopRight => HandleType::BottomLeft,
            HandleType::MiddleLeft => HandleType::MiddleRight,
            HandleType::MiddleRight => HandleType::MiddleLeft,
            HandleType::BottomLeft => HandleType::TopRight,
            HandleType::BottomCenter => HandleType::TopCenter,
            HandleType::BottomRight => HandleType::TopLeft,
            HandleType::Rotation => HandleType::Center,
            HandleType::Center => HandleType::Center,
        }
    }

    /// The handle across the box.
    pub fn across(self) -> (r: HandleType)
        ensures
            r == self.opposite(),
    {
        match self {
            HandleType::TopLeft => HandleType::BottomRight,
            HandleType::TopCenter => HandleType::BottomCenter,
            HandleType::TopRight => HandleType::BottomLeft,
            HandleType::MiddleLeft => HandleType::MiddleRight,
            HandleType::MiddleRight => HandleType::MiddleLeft,
            HandleType::BottomLeft => HandleType::TopRight,
            HandleType::BottomCenter => HandleType::TopCenter,
            HandleType::BottomRight => HandleType::TopLeft,
            HandleType::Rotation => HandleType::Center,
            HandleType::Center => HandleType::Center,
        }
    }
}

/// The order in which handles are generated and hit: corners, edges, the
/// rotation handle, the centre.
pub open spec fn handle_order() -> Seq<HandleType> {
    seq![
        HandleType::TopLeft,
        HandleType::TopRight,
        HandleType::BottomLeft,
        HandleType::BottomRight,
        HandleType::TopCenter,
        HandleType::BottomCenter,
        HandleType::MiddleLeft,
        HandleType::MiddleRight,
        HandleType::Rotation,
        HandleType::Center,
    ]
}

/// Where the handle of the given kind sits on `bounds`. The rotation handle
/// floats `rotation_offset` above the middle of the top edge.
pub open spec fn anchor(bounds: BoundingBox, kind: HandleType, rotation_offset: Scalar) -> Point {
    match kind {
        HandleType::TopLeft => Point { x: bounds.x, y: bounds.y },
        HandleType::TopCenter => Point { x: bounds.center_x(), y: bounds.y },
        HandleType::TopRight => Point { x: bounds.right(), y: bounds.y },
        HandleType::MiddleLeft => Point { x: bounds.x, y: bounds.center_y() },
        HandleType::MiddleRight => Point { x: bounds.right(), y: bounds.center_y() },
        HandleType::BottomLeft => Point { x: bounds.x, y: bounds.bottom() },
        HandleType::BottomCenter => Point { x: bounds.center_x(), y: bounds.bottom() },
        HandleType::BottomRight => Point { x: bounds.right(), y: bounds.bottom() },
        HandleType::Rotation => Point {
            x: bounds.center_x(),
            y: diff(bounds.y, rotation_offset),
        },
        HandleType::Center => Point { x: bounds.center_x(), y: bounds.center_y() },
    }
}

/// The square of side `size` centred on `position`.
pub open spec fn hit_box(position: Point, size: Scalar) -> BoundingBox {
    BoundingBox {
        x: diff(position.x, half(size)),
        y: diff(position.y, half(size)),
        width: size,
        height: size,
    }
}

/// The handle of the given kind on `bounds`.
pub open spec fn handle_at(
    bounds: BoundingBox,
    kind: HandleType,
    size: Scalar,
    rotation_offset: Scalar,
) -> Handle {
    Handle {
        handle_type: kind,
        position: anchor(bounds, kind, rotation_offset),
        bounds: hit_box(anchor(bounds, kind, rotation_offset), size),
    }
}

/// The ten handles of `bounds`, in generation order.
pub open spec fn handle_layout(bounds: BoundingBox, size: Scalar, rotation_offset: Scalar) -> Seq<
    Handle,
> {
    Seq::new(10, |i: int| handle_at(bounds, handle_order()[i], size, rotation_offset))
}

/// Whether `handles[i]` is the first handle whose hit box holds `point`.
pub open spec fn is_first_hit(handles: Seq<Handle>, point: Point, i: int) -> bool {
    &&& 0 <= i < handles.len()
    &&& handles[i].bounds.contains(point)
    &&& forall|j: int| 0 <= j < i ==> !(#[trigger] handles[j]).bounds.contains(point)
}

/// Whether no hit box holds `point`.
pub open spec fn misses_all(handles: Seq<Handle>, point: Point) -> bool {
    forall|j: int| 0 <= j < handles.len() ==> !(#[trigger] handles[j]).bounds.contains(point)
}

/// The index of the first handle whose hit box holds `point`, if any does.
pub open spec fn hit_index(handles: Seq<Handle>, point: Point) -> Option<int> {
    if exists|i: int| is_first_hit(handles, point, i) {
        Some(choose|i: int| is_first_hit(handles, point, i))
    } else {
        None
    }
}

/// The kind of the first handle whose hit box holds `point`, if any does.
pub open spec fn hit_kind(handles: Seq<Handle>, point: Point) -> Option<HandleType> {
    match hit_index(handles, point) {
        Some(i) => Some(handles[i].handle_type),
        None => None,
    }
}

/// The first handle whose hit box holds `point`, if any does.
pub open spec fn hit_handle(handles: Seq<Handle>, point: Point) -> Option<Handle> {
    match hit_index(handles, point) {
        Some(i) => Some(handles[i]),
        None => None,
    }
}

/// There is one first hit at most.
pub proof fn lemma_first_hit_unique(handles: Seq<Handle>, point: Point, i: int)
    requires
        is_first_hit(handles, point, i),
    ensures
        hit_index(handles, point) == Some(i),
{
    let j = choose|j: int| is_first_hit(handles, point, j);
    assert(is_first_hit(handles, point, j));
    if j < i {
        assert(!handles[j].bounds.contains(point));
    } else if i < j {
        assert(!handles[i].bounds.contains(point));
    }
}

/// Where no hit box holds the point, there is no first hit.
pub proof fn lemma_no_hit(handles: Seq<Handle>, point: Point)
    requires
        misses_all(handles, point),
    ensures
        hit_index(handles, point) is None,
{
    if exists|i: int| is_first_hit(handles, point, i) {
        let i = choose|i: int| is_first_hit(handles, point, i);
        assert(!handles[i].bounds.contains(point));
    }
}

/// The cursor that each kind of handle asks for: opposite corners share a
/// diagonal, opposite edges an axis.
pub open spec fn cursor_of(kind: HandleType) -> Seq<char> {
    match kind {
        HandleType::TopLeft | HandleType::BottomRight => "nw-resize"@,
        HandleType::TopRight | HandleType::BottomLeft => "ne-resize"@,
        HandleType::TopCenter | HandleType::BottomCenter => "n-resize"@,
        HandleType::MiddleLeft | HandleType::MiddleRight => "e-resize"@,
        HandleType::Center => "move"@,
        HandleType::Rotation => "crosshair"@,
    }
}

/// Where the handle of the given kind sits on `bounds`.
pub fn anchor_point(bounds: &BoundingBox, kind: HandleType, rotation_offset: Scalar) -> (p: Point)
    ensures
        p == anchor(*bounds, kind, rotation_offset),
{
    let left = bounds.x;
    let top = bounds.y;
    match kind {
        HandleType::TopLeft => Point { x: left, y: top },
        HandleType::TopCenter => Point { x: bounds.center().x, y: top },
        HandleType::TopRight => Point { x: bounds.max_x(), y: top },
        HandleType::MiddleLeft => Point { x: left, y: bounds.center().y },
        HandleType::MiddleRight => Point { x: bounds.max_x(), y: bounds.center().y },
        HandleType::BottomLeft => Point { x: left, y: bounds.max_y() },
        HandleType::BottomCenter => Point { x: bounds.center().x, y: bounds.max_y() },
        HandleType::BottomRight => Point { x: bounds.max_x(), y: bounds.max_y() },
        HandleType::Rotation => Point { x: bounds.center().x, y: sub_sat(top, rotation_offset) },
        HandleType::Center => bounds.center(),
    }
}

/// The handle of the given kind on `bounds`, with its hit box.
pub fn make_handle(
    bounds: &BoundingBox,
    kind: HandleType,
    size: Scalar,
    rotation_offset: Scalar,
) -> (h: Handle)
    ensures
        h == handle_at(*bounds, kind, size, rotation_offset),
{
    let position = anchor_point(bounds, kind, rotation_offset);
    let reach = halve(size);
    Handle {
        handle_type: kind,
        position,
        bounds: BoundingBox {
            x: sub_sat(position.x, reach),
            y: sub_sat(position.y, reach),
            width: size,
            height: size,
        },
    }
}

/// The ten handles of `bounds`: the four corners, the four edge midpoints,
/// the rotation handle `rotation_offset` above the top edge, and the centre.
/// Each hit box is a square of side `handle_size` about its handle.
pub fn generate_handles(bounds: &BoundingBox, handle_size: Scalar, rotation_offset: Scalar) -> (handles:
    Vec<Handle>)
    ensures
        handles@ == handle_layout(*bounds, handle_size, rotation_offset),
{
    let mut handles: Vec<Handle> = Vec::new();
    handles.push(make_handle(bounds, HandleType::TopLeft, handle_size, rotation_offset));
    handles.push(make_handle(bounds, HandleType::TopRight, handle_size, rotation_offset));
    handles.push(make_handle(bounds, HandleType::BottomLeft, handle_size, rotation_offset));
    handles.push(make_handle(bounds, HandleType::BottomRight, handle_size, rotation_offset));
    handles.push(make_handle(bounds, HandleType::TopCenter, handle_size, rotation_offset));
    handles.push(make_handle(bounds, HandleType::BottomCenter, handle_size, rotation_offset));
    handles.push(make_handle(bounds, HandleType::MiddleLeft, handle_size, rotation_offset));
    handles.push(make_handle(bounds, HandleType::MiddleRight, handle_size, rotation_offset));
    handles.push(make_handle(bounds, HandleType::Rotation, handle_size, rotation_offset));
    handles.push(make_handle(bounds, HandleType::Center, handle_size, rotation_offset));
    assert(handles@ =~= handle_layout(*bounds, handle_size, rotation_offset));
    handles
}

/// The index of the first handle whose hit box holds `point`.
pub fn first_hit_index(point: &Point, handles: &[Handle]) -> (r: Option<usize>)
    ensures
        match r {
            Some(i) => hit_index(handles@, *point) == Some(i as int) && i < handles@.len(),
            None => hit_index(handles@, *point) is None,
        },
{
    let mut i: usize = 0;
    while i < handles.len()
        invariant
            i <= handles.len(),
            forall|j: int| 0 <= j < i ==> !(#[trigger] handles@[j]).bounds.contains(*point),
        decreases handles.len() - i,
    {
        if handles[i].bounds.contains_point(point) {
            proof {
                lemma_first_hit_unique(handles@, *point, i as int);
            }
            return Some(i);
        }
        i = i + 1;
    }
    proof {
        lemma_no_hit(handles@, *point);
    }
    None
}

/// The kind of the first handle whose hit box holds `point`.
pub fn hit_test(point: &Point, handles: &[Handle]) -> (r: Option<HandleType>)
    ensures
        r == hit_kind(handles@, *point),
{
    match first_hit_index(point, handles) {
        Some(i) => Some(handles[i].handle_type),
        None => None,
    }
}

/// The cursor that the handle asks for.
pub fn cursor_for(kind: HandleType) -> (cursor: &'static str)
    ensures
        cursor@ == cursor_of(kind),
{
    match kind {
        HandleType::TopLeft | HandleType::BottomRight => "nw-resize",
        HandleType::TopRight | HandleType::BottomLeft => "ne-resize",
        HandleType::TopCenter | HandleType::BottomCenter => "n-resize",
        HandleType::MiddleLeft | HandleType::MiddleRight => "e-resize",
        HandleType::Center => "move",
        HandleType::Rotation => "crosshair",
    }
}

} // verus!
