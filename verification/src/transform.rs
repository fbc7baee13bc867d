//! The parts of the projection pipeline that do not depend on how a point is
//! projected: closing a polygon, and dropping what could not be projected.

use vstd::prelude::*;

verus! {

/// The edges of the closed polygon through `points`: each point paired with
/// the one after it, the last with the first.
pub open spec fn ring_of<Point>(points: Seq<Point>) -> Seq<(Point, Point)> {
    Seq::new(points.len(), |n: int| (points[n], points[(n + 1) % (points.len() as int)]))
}

/// Closes `points` into a polygon and returns its edges, in the order of
/// their first points. No points give no edges; one point gives the edge from
/// it to itself.
pub fn ring<Point: Copy>(points: &[Point]) -> (edges: Vec<(Point, Point)>)
    ensures
        edges@ == ring_of(points@),
{
    let mut edges: Vec<(Point, Point)> = Vec::new();
    let len = points.len();
    for n in 0..len
        invariant
            len == points@.len(),
            edges@.len() == n,
            forall|m: int| 0 <= m < n ==> edges@[m] == ring_of(points@)[m],
    {
        edges.push((points[n], points[(n + 1) % len]));
    }
    assert(edges@ =~= ring_of(points@));
    edges
}

/// The segment between two projected end points, if both were projected.
pub open spec fn whole<Point>(ends: (Option<Point>, Option<Point>)) -> Option<(Point, Point)> {
    match ends {
        (Some(from), Some(to)) => Some((from, to)),
        _ => None,
    }
}

/// What is drawn of a list of segments whose end points were projected one
/// by one: the segments of which both ends were projected, in their order.
/// A segment with an end that has no projection is left out whole.
pub open spec fn drawn<Point>(ends: Seq<(Option<Point>, Option<Point>)>) -> Seq<(Point, Point)> {
    ends.filter_map(|e: (Option<Point>, Option<Point>)| whole(e))
}

/// Keeps the segments that have both end points, in their order.
pub fn cull<Point: Copy>(ends: &[(Option<Point>, Option<Point>)]) -> (segments: Vec<
    (Point, Point),
>)
    ensures
        segments@ == drawn(ends@),
{
    let mut segments: Vec<(Point, Point)> = Vec::new();
    let len = ends.len();
    assert(ends@.take(0) =~= Seq::empty());
    for n in 0..len
        invariant
            len == ends@.len(),
            segments@ == drawn(ends@.take(n as int)),
    {
        proof {
            ends@.lemma_filter_map_take_succ(
                |e: (Option<Point>, Option<Point>)| whole(e),
                n as int,
            );
        }
        if let (Some(from), Some(to)) = ends[n] {
            segments.push((from, to));
        }
    }
    assert(ends@.take(len as int) =~= ends@);
    segments
}

/// The ring has one edge for each point, and it is closed: every edge ends
/// where the next one starts, the last where the first starts.
pub proof fn lemma_ring_closes<Point>(points: Seq<Point>, n: int)
    requires
        0 <= n < points.len(),
    ensures
        ring_of(points).len() == points.len(),
        ring_of(points)[n].0 == points[n],
        ring_of(points)[n].1 == ring_of(points)[(n + 1) % (points.len() as int)].0,
{
    let next = (n + 1) % (points.len() as int);
    assert(0 <= next < points.len()) by (nonlinear_arith)
        requires
            next == (n + 1) % (points.len() as int),
            0 < points.len(),
    ;
}

/// One more pair of ends adds its segment at the end if it is whole, and
/// nothing if it is not: what was drawn before stays, in its order.
pub proof fn lemma_drawn_push<Point>(
    ends: Seq<(Option<Point>, Option<Point>)>,
    last: (Option<Point>, Option<Point>),
)
    ensures
        drawn(ends.push(last)) == match whole(last) {
            Some(segment) => drawn(ends).push(segment),
            None => drawn(ends),
        },
{
    assert(ends.push(last).drop_last() =~= ends);
}

/// Never more segments are drawn than there are pairs of ends.
pub proof fn lemma_drawn_len<Point>(ends: Seq<(Option<Point>, Option<Point>)>)
    ensures
        drawn(ends).len() <= ends.len(),
    decreases ends.len(),
{
    if ends.len() > 0 {
        lemma_drawn_len(ends.drop_last());
        lemma_drawn_push(ends.drop_last(), ends.last());
        assert(ends.drop_last().push(ends.last()) =~= ends);
    }
}

/// Where every segment has both its ends, every segment is drawn, each at
/// the place it had in the list.
pub proof fn lemma_drawn_all_whole<Point>(ends: Seq<(Option<Point>, Option<Point>)>)
    requires
        forall|n: int| 0 <= n < ends.len() ==> whole(#[trigger] ends[n]) is Some,
    ensures
        drawn(ends).len() == ends.len(),
        forall|n: int| 0 <= n < ends.len() ==> Some(#[trigger] drawn(ends)[n]) == whole(ends[n]),
    decreases ends.len(),
{
    if ends.len() > 0 {
        let rest = ends.drop_last();
        lemma_drawn_all_whole(rest);
        lemma_drawn_push(rest, ends.last());
        assert(rest.push(ends.last()) =~= ends);
    }
}

} // verus!
