//! Alignment guides and snapping of points to guides, objects and the grid.
use crate::geometry::{BoundingBox, Point};
use crate::scalar::{is_within, snap_to_multiple, snapped, within, Scalar};
use vstd::prelude::*;

verus! {

/// The direction in which a guide runs.
#[derive(Clone, Copy, Debug, PartialEq, Eq, Structural)]
pub enum Orientation {
    Horizontal,
    Vertical,
}

/// A horizontal or vertical line that dragged points snap to.
#[derive(Clone, Debug)]
pub struct AlignmentGuide {
    pub id: u32,
    pub orientation: Orientation,
    /// The y coordinate of a horizontal guide, the x coordinate of a vertical one.
    pub position: Scalar,
    pub element_ids: Vec<u32>,
    /// A temporary guide lives until the running manipulation ends.
    pub temporary: bool,
}

/// The last of `candidates` that lies less than `threshold` from `probe`, or
/// `fallback` when none does.
pub open spec fn last_match(
    candidates: Seq<Scalar>,
    probe: Scalar,
    threshold: Scalar,
    fallback: Scalar,
) -> Scalar
    decreases candidates.len(),
{
    if candidates.len() == 0 {
        fallback
    } else if within(probe, candidates.last(), threshold) {
        candidates.last()
    } else {
        last_match(candidates.drop_last(), probe, threshold, fallback)
    }
}

/// The positions of the guides that run in the given direction, in order.
pub open spec fn guide_lines(guides: Seq<AlignmentGuide>, orientation: Orientation) -> Seq<Scalar>
    decreases guides.len(),
{
    if guides.len() == 0 {
        Seq::empty()
    } else if guides.last().orientation == orientation {
        guide_lines(guides.drop_last(), orientation).push(guides.last().position)
    } else {
        guide_lines(guides.drop_last(), orientation)
    }
}

/// The lines of a box that run in the given direction: the vertical ones are
/// its left edge, its right edge and its vertical centre line, given by their
/// x; the horizontal ones its top edge, its bottom edge and its horizontal
/// centre line, given by their y.
pub open spec fn box_lines(bounds: BoundingBox, orientation: Orientation) -> Seq<Scalar> {
    match orientation {
        Orientation::Vertical => seq![bounds.x, bounds.right(), bounds.center_x()],
        Orientation::Horizontal => seq![bounds.y, bounds.bottom(), bounds.center_y()],
    }
}

/// The lines of all the boxes that run in the given direction, box after box.
pub open spec fn object_lines(boxes: Seq<BoundingBox>, orientation: Orientation) -> Seq<Scalar>
    decreases boxes.len(),
{
    if boxes.len() == 0 {
        Seq::empty()
    } else {
        object_lines(boxes.drop_last(), orientation) + box_lines(boxes.last(), orientation)
    }
}

/// What one coordinate of a point snaps to, x to the vertical lines and y to
/// the horizontal ones: the guides of that direction come first, then, where
/// objects count, the lines of the boxes of that direction. The last line
/// within reach wins, so an object overrides a guide on the same axis.
pub open spec fn snap_candidates(
    guides: Seq<AlignmentGuide>,
    orientation: Orientation,
    boxes: Seq<BoundingBox>,
    snap_objects: bool,
) -> Seq<Scalar> {
    if snap_objects {
        guide_lines(guides, orientation) + object_lines(boxes, orientation)
    } else {
        guide_lines(guides, orientation)
    }
}

/// The point after snapping to guides and, where `snap_objects` holds, to the
/// boxes. Every comparison is made with the coordinate as it came in. A
/// vertical line pulls x, a horizontal one y; no line pulls the coordinate
/// of the other axis.
pub open spec fn snapped_to_guides(
    guides: Seq<AlignmentGuide>,
    boxes: Seq<BoundingBox>,
    snap_objects: bool,
    threshold: Scalar,
    point: Point,
) -> Point {
    Point {
        x: last_match(
            snap_candidates(guides, Orientation::Vertical, boxes, snap_objects),
            point.x,
            threshold,
            point.x,
        ),
        y: last_match(
            snap_candidates(guides, Orientation::Horizontal, boxes, snap_objects),
            point.y,
            threshold,
            point.y,
        ),
    }
}

/// The point with each coordinate moved to the nearest multiple of `grid`.
pub open spec fn snapped_to_grid(point: Point, grid: Scalar) -> Point {
    Point { x: snapped(point.x, grid), y: snapped(point.y, grid) }
}

/// The guides that are not temporary, in order.
pub open spec fn lasting(guides: Seq<AlignmentGuide>) -> Seq<AlignmentGuide> {
    guides.filter(|g: AlignmentGuide| !g.temporary)
}

/// The guides with another id than `guide_id`, in order.
pub open spec fn without_id(guides: Seq<AlignmentGuide>, guide_id: u32) -> Seq<AlignmentGuide> {
    guides.filter(|g: AlignmentGuide| g.id != guide_id)
}

/// Matching a list of candidates in two parts: what the first part settles on
/// is what the second falls back to.
pub proof fn lemma_last_match_concat(
    first: Seq<Scalar>,
    second: Seq<Scalar>,
    probe: Scalar,
    threshold: Scalar,
    fallback: Scalar,
)
    ensures
        last_match(first + second, probe, threshold, fallback) == last_match(
            second,
            probe,
            threshold,
            last_match(first, probe, threshold, fallback),
        ),
    decreases second.len(),
{
    if second.len() == 0 {
        assert(first + second =~= first);
    } else {
        assert((first + second).last() == second.last());
        assert((first + second).drop_last() =~= first + second.drop_last());
        lemma_last_match_concat(first, second.drop_last(), probe, threshold, fallback);
    }
}

/// What a match settles on is the fallback or a candidate within reach.
pub proof fn lemma_last_match_is_candidate(
    candidates: Seq<Scalar>,
    probe: Scalar,
    threshold: Scalar,
    fallback: Scalar,
)
    ensures
        last_match(candidates, probe, threshold, fallback) == fallback || (candidates.contains(
            last_match(candidates, probe, threshold, fallback),
        ) && within(probe, last_match(candidates, probe, threshold, fallback), threshold)),
    decreases candidates.len(),
{
    if candidates.len() > 0 {
        let rest = candidates.drop_last();
        if within(probe, candidates.last(), threshold) {
            assert(candidates[candidates.len() - 1] == candidates.last());
        } else {
            lemma_last_match_is_candidate(rest, probe, threshold, fallback);
            let r = last_match(rest, probe, threshold, fallback);
            if rest.contains(r) {
                let j = choose|j: int| 0 <= j < rest.len() && rest[j] == r;
                assert(candidates[j] == r);
            }
        }
    }
}

/// Where a candidate lies within reach, the fallback has no say: the match
/// settles on a candidate within reach.
pub proof fn lemma_last_match_ignores_fallback(
    candidates: Seq<Scalar>,
    probe: Scalar,
    threshold: Scalar,
    first: Scalar,
    second: Scalar,
    at: int,
)
    requires
        0 <= at < candidates.len(),
        within(probe, candidates[at], threshold),
    ensures
        last_match(candidates, probe, threshold, first) == last_match(
            candidates,
            probe,
            threshold,
            second,
        ),
        candidates.contains(last_match(candidates, probe, threshold, first)),
        within(probe, last_match(candidates, probe, threshold, first), threshold),
    decreases candidates.len(),
{
    if within(probe, candidates.last(), threshold) {
        assert(candidates[candidates.len() - 1] == candidates.last());
    } else {
        let rest = candidates.drop_last();
        assert(rest[at] == candidates[at]);
        lemma_last_match_ignores_fallback(rest, probe, threshold, first, second, at);
        let r = last_match(rest, probe, threshold, first);
        let j = choose|j: int| 0 <= j < rest.len() && rest[j] == r;
        assert(candidates[j] == r);
    }
}

/// Every line taken from the guides is the position of a guide that runs in
/// the direction asked for.
pub proof fn lemma_guide_line_is_guide(
    guides: Seq<AlignmentGuide>,
    orientation: Orientation,
    line: Scalar,
)
    requires
        guide_lines(guides, orientation).contains(line),
    ensures
        exists|i: int|
            0 <= i < guides.len() && (#[trigger] guides[i]).orientation == orientation
                && guides[i].position == line,
    decreases guides.len(),
{
    let lines = guide_lines(guides, orientation);
    let j = choose|j: int| 0 <= j < lines.len() && lines[j] == line;
    if guides.len() > 0 {
        let rest = guides.drop_last();
        let rest_lines = guide_lines(rest, orientation);
        if guides.last().orientation == orientation && j == rest_lines.len() {
            assert(guides[guides.len() - 1].position == line);
        } else {
            assert(rest_lines[j] == line);
            lemma_guide_line_is_guide(rest, orientation, line);
            let i = choose|i: int|
                0 <= i < rest.len() && (#[trigger] rest[i]).orientation == orientation
                    && rest[i].position == line;
            assert(guides[i] == rest[i]);
        }
    }
}

/// Every line taken from the boxes is a line of one of them that runs in the
/// direction asked for.
pub proof fn lemma_object_line_is_box_line(
    boxes: Seq<BoundingBox>,
    orientation: Orientation,
    line: Scalar,
)
    requires
        object_lines(boxes, orientation).contains(line),
    ensures
        exists|k: int|
            0 <= k < boxes.len() && box_lines(#[trigger] boxes[k], orientation).contains(line),
    decreases boxes.len(),
{
    let lines = object_lines(boxes, orientation);
    let j = choose|j: int| 0 <= j < lines.len() && lines[j] == line;
    if boxes.len() > 0 {
        let rest = boxes.drop_last();
        let rest_lines = object_lines(rest, orientation);
        let own = box_lines(boxes.last(), orientation);
        if j < rest_lines.len() {
            assert(rest_lines[j] == line);
            lemma_object_line_is_box_line(rest, orientation, line);
            let k = choose|k: int|
                0 <= k < rest.len() && box_lines(#[trigger] rest[k], orientation).contains(line);
            assert(boxes[k] == rest[k]);
        } else {
            assert(own[j - rest_lines.len()] == line);
            assert(boxes[boxes.len() - 1] == boxes.last());
        }
    }
}

/// One more candidate either wins or changes nothing.
proof fn lemma_last_match_push(
    candidates: Seq<Scalar>,
    line: Scalar,
    probe: Scalar,
    threshold: Scalar,
    fallback: Scalar,
)
    ensures
        last_match(candidates.push(line), probe, threshold, fallback) == (if within(
            probe,
            line,
            threshold,
        ) {
            line
        } else {
            last_match(candidates, probe, threshold, fallback)
        }),
{
    assert(candidates.push(line).last() == line);
    assert(candidates.push(line).drop_last() =~= candidates);
}

/// Snaps one coordinate to the lines of a box that run in the given direction.
fn snap_to_box(
    bounds: &BoundingBox,
    orientation: Orientation,
    probe: Scalar,
    threshold: Scalar,
    fallback: Scalar,
) -> (r: Scalar)
    ensures
        r == last_match(box_lines(*bounds, orientation), probe, threshold, fallback),
{
    let center = bounds.center();
    let (near, far, middle) = match orientation {
        Orientation::Vertical => (bounds.x, bounds.max_x(), center.x),
        Orientation::Horizontal => (bounds.y, bounds.max_y(), center.y),
    };
    let mut value = fallback;
    proof {
        let l0 = Seq::<Scalar>::empty();
        let l1 = l0.push(near);
        let l2 = l1.push(far);
        let l3 = l2.push(middle);
        assert(l3 =~= box_lines(*bounds, orientation));
        lemma_last_match_push(l0, near, probe, threshold, fallback);
        lemma_last_match_push(l1, far, probe, threshold, fallback);
        lemma_last_match_push(l2, middle, probe, threshold, fallback);
    }
    if is_within(probe, near, threshold) {
        value = near;
    }
    if is_within(probe, far, threshold) {
        value = far;
    }
    if is_within(probe, middle, threshold) {
        value = middle;
    }
    value
}

/// Snaps `point` to the guides and, where `snap_objects` holds, to the edges
/// and centre lines of `boxes`: x to vertical lines, y to horizontal ones.
pub fn snap_to_guides(
    guides: &[AlignmentGuide],
    boxes: &[BoundingBox],
    snap_objects: bool,
    threshold: Scalar,
    point: Point,
) -> (r: Point)
    ensures
        r == snapped_to_guides(guides@, boxes@, snap_objects, threshold, point),
{
    let mut x = point.x;
    let mut y = point.y;
    let mut i: usize = 0;
    while i < guides.len()
        invariant
            i <= guides.len(),
            x == last_match(
                guide_lines(guides@.take(i as int), Orientation::Vertical),
                point.x,
                threshold,
                point.x,
            ),
            y == last_match(
                guide_lines(guides@.take(i as int), Orientation::Horizontal),
                point.y,
                threshold,
                point.y,
            ),
        decreases guides.len() - i,
    {
        proof {
            let next = guides@.take(i + 1);
            assert(next.drop_last() =~= guides@.take(i as int));
            assert(next.last() == guides@[i as int]);
            lemma_last_match_push(
                guide_lines(guides@.take(i as int), Orientation::Vertical),
                guides@[i as int].position,
                point.x,
                threshold,
                point.x,
            );
            lemma_last_match_push(
                guide_lines(guides@.take(i as int), Orientation::Horizontal),
                guides@[i as int].position,
                point.y,
                threshold,
                point.y,
            );
        }
        let guide = &guides[i];
        match guide.orientation {
            Orientation::Horizontal => {
                if is_within(point.y, guide.position, threshold) {
                    y = guide.position;
                }
            },
            Orientation::Vertical => {
                if is_within(point.x, guide.position, threshold) {
                    x = guide.position;
                }
            },
        }
        i = i + 1;
    }
    assert(guides@.take(guides.len() as int) =~= guides@);
    if snap_objects {
        let ghost x_guides = x;
        let ghost y_guides = y;
        let mut k: usize = 0;
        while k < boxes.len()
            invariant
                k <= boxes.len(),
                x == last_match(
                    object_lines(boxes@.take(k as int), Orientation::Vertical),
                    point.x,
                    threshold,
                    x_guides,
                ),
                y == last_match(
                    object_lines(boxes@.take(k as int), Orientation::Horizontal),
                    point.y,
                    threshold,
                    y_guides,
                ),
            decreases boxes.len() - k,
        {
            proof {
                let next = boxes@.take(k + 1);
                assert(next.drop_last() =~= boxes@.take(k as int));
                assert(next.last() == boxes@[k as int]);
                lemma_last_match_concat(
                    object_lines(boxes@.take(k as int), Orientation::Vertical),
                    box_lines(boxes@[k as int], Orientation::Vertical),
                    point.x,
                    threshold,
                    x_guides,
                );
                lemma_last_match_concat(
                    object_lines(boxes@.take(k as int), Orientation::Horizontal),
                    box_lines(boxes@[k as int], Orientation::Horizontal),
                    point.y,
                    threshold,
                    y_guides,
                );
            }
            x = snap_to_box(&boxes[k], Orientation::Vertical, point.x, threshold, x);
            y = snap_to_box(&boxes[k], Orientation::Horizontal, point.y, threshold, y);
            k = k + 1;
        }
        proof {
            assert(boxes@.take(boxes.len() as int) =~= boxes@);
            lemma_last_match_concat(
                guide_lines(guides@, Orientation::Vertical),
                object_lines(boxes@, Orientation::Vertical),
                point.x,
                threshold,
                point.x,
            );
            lemma_last_match_concat(
                guide_lines(guides@, Orientation::Horizontal),
                object_lines(boxes@, Orientation::Horizontal),
                point.y,
                threshold,
                point.y,
            );
        }
    }
    Point { x, y }
}

/// Moves each coordinate of `point` to the nearest multiple of `grid`.
pub fn snap_point(point: &Point, grid: Scalar) -> (r: Point)
    ensures
        r == snapped_to_grid(*point, grid),
{
    Point { x: snap_to_multiple(point.x, grid), y: snap_to_multiple(point.y, grid) }
}

/// Drops the temporary guides and keeps the others in order.
pub fn purge_temporary(guides: &mut Vec<AlignmentGuide>)
    ensures
        final(guides)@ == lasting(old(guides)@),
{
    let mut all: Vec<AlignmentGuide> = Vec::new();
    core::mem::swap(guides, &mut all);
    let ghost keep = |g: AlignmentGuide| !g.temporary;
    proof {
        reveal(Seq::filter);
    }
    for guide in it: all
        invariant
            it.seq() == old(guides)@,
            keep == |g: AlignmentGuide| !g.temporary,
            guides@ == it.seq().take(it.index() as int).filter(keep),
    {
        proof {
            reveal(Seq::filter);
            let next = it.seq().take(it.index() + 1);
            assert(next.drop_last() =~= it.seq().take(it.index() as int));
            assert(next.last() == guide);
        }
        if !guide.temporary {
            guides.push(guide);
        }
    }
    assert(old(guides)@.take(old(guides)@.len() as int) =~= old(guides)@);
}

/// Drops the guides with the given id and keeps the others in order.
pub fn remove_by_id(guides: &mut Vec<AlignmentGuide>, guide_id: u32)
    ensures
        final(guides)@ == without_id(old(guides)@, guide_id),
{
    let mut all: Vec<AlignmentGuide> = Vec::new();
    core::mem::swap(guides, &mut all);
    let ghost keep = |g: AlignmentGuide| g.id != guide_id;
    proof {
        reveal(Seq::filter);
    }
    for guide in it: all
        invariant
            it.seq() == old(guides)@,
            keep == |g: AlignmentGuide| g.id != guide_id,
            guides@ == it.seq().take(it.index() as int).filter(keep),
    {
        proof {
            reveal(Seq::filter);
            let next = it.seq().take(it.index() + 1);
            assert(next.drop_last() =~= it.seq().take(it.index() as int));
            assert(next.last() == guide);
        }
        if guide.id != guide_id {
            guides.push(guide);
        }
    }
    assert(old(guides)@.take(old(guides)@.len() as int) =~= old(guides)@);
}

} // verus!
