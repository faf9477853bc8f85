//! Moving elements: one element by a delta about a pivot, and several
//! elements onto a common edge or centre line.
use crate::element::VectorElement;
use crate::geometry::{BoundingBox, Point};
use crate::rotation::Rotation;
use crate::scalar::{diff, greater, lesser, max_of, mid, midpoint, min_of, sub_sat, Scalar};
use crate::transform::{
    bounds_after, combine_transforms, combined_about, transform_bounds, Transform,
};
use vstd::prelude::*;

verus! {

/// The line that elements are brought onto.
#[derive(Clone, Copy, Debug, PartialEq, Eq, Structural)]
pub enum Alignment {
    Left,
    Center,
    Right,
    Top,
    Middle,
    Bottom,
}

/// How far a set of boxes reaches in each direction.
#[derive(Clone, Copy, Debug, PartialEq, Eq, Structural)]
pub struct Extent {
    pub left: Scalar,
    pub right: Scalar,
    pub top: Scalar,
    pub bottom: Scalar,
}

/// The alignment that a name stands for.
pub open spec fn alignment_named(name: Seq<char>) -> Option<Alignment> {
    if name == "left"@ {
        Some(Alignment::Left)
    } else if name == "center"@ {
        Some(Alignment::Center)
    } else if name == "right"@ {
        Some(Alignment::Right)
    } else if name == "top"@ {
        Some(Alignment::Top)
    } else if name == "middle"@ {
        Some(Alignment::Middle)
    } else if name == "bottom"@ {
        Some(Alignment::Bottom)
    } else {
        None
    }
}

/// The bounds of each element, in order.
pub open spec fn boxes_of(elements: Seq<VectorElement>) -> Seq<BoundingBox> {
    Seq::new(elements.len(), |i: int| elements[i].bounds_of())
}

/// The least left and top edge and the greatest right and bottom edge of the
/// boxes. Of no box at all, each side is as far off as can be.
pub open spec fn extent_of(boxes: Seq<BoundingBox>) -> Extent
    decreases boxes.len(),
{
    if boxes.len() == 0 {
        Extent { left: i64::MAX, right: i64::MIN, top: i64::MAX, bottom: i64::MIN }
    } else {
        let rest = extent_of(boxes.drop_last());
        Extent {
            left: lesser(rest.left, boxes.last().x),
            right: greater(rest.right, boxes.last().right()),
            top: lesser(rest.top, boxes.last().y),
            bottom: greater(rest.bottom, boxes.last().bottom()),
        }
    }
}

/// How far a box has to move for its edge or centre line to come onto the
/// line of the alignment. The other axis stays.
pub open spec fn alignment_offset(mode: Alignment, extent: Extent, bounds: BoundingBox) -> Point {
    match mode {
        Alignment::Left => Point { x: diff(extent.left, bounds.x), y: 0 },
        Alignment::Center => Point {
            x: diff(mid(extent.left, extent.right), bounds.center_x()),
            y: 0,
        },
        Alignment::Right => Point { x: diff(extent.right, bounds.right()), y: 0 },
        Alignment::Top => Point { x: 0, y: diff(extent.top, bounds.y) },
        Alignment::Middle => Point {
            x: 0,
            y: diff(mid(extent.top, extent.bottom), bounds.center_y()),
        },
        Alignment::Bottom => Point { x: 0, y: diff(extent.bottom, bounds.bottom()) },
    }
}

/// The element with `delta` applied about `origin`: its transform combined,
/// and its bounds recomputed from its corners under the new transform.
pub open spec fn transformed(element: VectorElement, delta: Transform, origin: Point)
    -> VectorElement {
    let to = combined_about(element.transform_of(), delta, origin);
    element.placed(to, bounds_after(element.bounds_of(), to))
}

/// The element moved by `offset`.
pub open spec fn translated(element: VectorElement, offset: Point) -> VectorElement {
    transformed(element, Transform::translation(offset.x, offset.y), Point { x: 0, y: 0 })
}

/// The element scaled by the factors `scale.x` and `scale.y` about `origin`.
pub open spec fn rescaled(element: VectorElement, scale: Point, origin: Point) -> VectorElement {
    transformed(element, Transform::scaling(scale.x, scale.y), origin)
}

/// The element turned by `rotation` about `origin`.
pub open spec fn turned(element: VectorElement, rotation: Rotation, origin: Point)
    -> VectorElement {
    transformed(element, Transform::turning(rotation), origin)
}

/// The elements after alignment: fewer than two elements, or no alignment,
/// and they stay as they are; else each is moved by its own offset.
pub open spec fn aligned(elements: Seq<VectorElement>, mode: Option<Alignment>) -> Seq<
    VectorElement,
> {
    if elements.len() < 2 || mode is None {
        elements
    } else {
        Seq::new(
            elements.len(),
            |i: int|
                translated(
                    elements[i],
                    alignment_offset(
                        mode.unwrap(),
                        extent_of(boxes_of(elements)),
                        elements[i].bounds_of(),
                    ),
                ),
        )
    }
}

/// The alignment that a name stands for: one of `left`, `center`, `right`,
/// `top`, `middle` and `bottom`.
pub fn parse_alignment(name: &str) -> (r: Option<Alignment>)
    ensures
        r == alignment_named(name@),
{
    let owned = name.to_owned();
    if owned == "left".to_owned() {
        Some(Alignment::Left)
    } else if owned == "center".to_owned() {
        Some(Alignment::Center)
    } else if owned == "right".to_owned() {
        Some(Alignment::Right)
    } else if owned == "top".to_owned() {
        Some(Alignment::Top)
    } else if owned == "middle".to_owned() {
        Some(Alignment::Middle)
    } else if owned == "bottom".to_owned() {
        Some(Alignment::Bottom)
    } else {
        None
    }
}

/// How far the elements reach in each direction.
pub fn measure(elements: &Vec<VectorElement>) -> (extent: Extent)
    ensures
        extent == extent_of(boxes_of(elements@)),
{
    let mut extent = Extent { left: i64::MAX, right: i64::MIN, top: i64::MAX, bottom: i64::MIN };
    let mut i: usize = 0;
    while i < elements.len()
        invariant
            i <= elements.len(),
            extent == extent_of(boxes_of(elements@).take(i as int)),
        decreases elements.len() - i,
    {
        proof {
            let next = boxes_of(elements@).take(i + 1);
            assert(next.drop_last() =~= boxes_of(elements@).take(i as int));
            assert(next.last() == elements@[i as int].bounds_of());
        }
        let bounds = elements[i].bounding_box();
        extent = Extent {
            left: min_of(extent.left, bounds.x),
            right: max_of(extent.right, bounds.max_x()),
            top: min_of(extent.top, bounds.y),
            bottom: max_of(extent.bottom, bounds.max_y()),
        };
        i = i + 1;
    }
    assert(boxes_of(elements@).take(elements.len() as int) =~= boxes_of(elements@));
    extent
}

/// How far a box has to move to come onto the line of the alignment.
pub fn offset_for(mode: Alignment, extent: &Extent, bounds: &BoundingBox) -> (offset: Point)
    ensures
        offset == alignment_offset(mode, *extent, *bounds),
{
    match mode {
        Alignment::Left => Point { x: sub_sat(extent.left, bounds.x), y: 0 },
        Alignment::Center => Point {
            x: sub_sat(midpoint(extent.left, extent.right), bounds.center().x),
            y: 0,
        },
        Alignment::Right => Point { x: sub_sat(extent.right, bounds.max_x()), y: 0 },
        Alignment::Top => Point { x: 0, y: sub_sat(extent.top, bounds.y) },
        Alignment::Middle => Point {
            x: 0,
            y: sub_sat(midpoint(extent.top, extent.bottom), bounds.center().y),
        },
        Alignment::Bottom => Point { x: 0, y: sub_sat(extent.bottom, bounds.max_y()) },
    }
}

/// Applies `delta` to the element about `origin`.
pub fn apply_delta(element: VectorElement, delta: &Transform, origin: &Point) -> (r: VectorElement)
    ensures
        r == transformed(element, *delta, *origin),
{
    let to = combine_transforms(element.transform(), delta, origin);
    let within = transform_bounds(element.bounding_box(), &to);
    element.with_placement(to, within)
}

/// Brings the elements onto the line of the alignment.
pub fn align(elements: Vec<VectorElement>, mode: Option<Alignment>) -> (r: Vec<VectorElement>)
    ensures
        r@ == aligned(elements@, mode),
{
    if elements.len() < 2 {
        return elements;
    }
    let mode = match mode {
        Some(mode) => mode,
        None => {
            return elements;
        },
    };
    let extent = measure(&elements);
    let mut moved: Vec<VectorElement> = Vec::new();
    for element in it: elements
        invariant
            it.seq() == elements@,
            extent == extent_of(boxes_of(elements@)),
            moved@ == Seq::new(
                it.index() as nat,
                |i: int|
                    translated(
                        elements@[i],
                        alignment_offset(mode, extent, elements@[i].bounds_of()),
                    ),
            ),
    {
        let ghost before = moved@;
        let offset = offset_for(mode, &extent, element.bounding_box());
        let delta = Transform::translate(offset.x, offset.y);
        moved.push(apply_delta(element, &delta, &Point { x: 0, y: 0 }));
        assert(moved@ =~= Seq::new(
            (it.index() + 1) as nat,
            |i: int|
                translated(elements@[i], alignment_offset(mode, extent, elements@[i].bounds_of())),
        ));
    }
    assert(moved@ =~= aligned(elements@, Some(mode)));
    moved
}

} // verus!
