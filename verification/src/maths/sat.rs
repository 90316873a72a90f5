//! The separating axis test for convex shapes.

use vstd::prelude::*;
use crate::maths::vec::wide_dot;
use crate::maths::vec::Vec2f;

verus! {

/// The exact projection of `p` onto the normal of the edge from `a` to `b`.
pub open spec fn projection(a: Vec2f, b: Vec2f, p: Vec2f) -> int {
    wide_dot(p.x.raw as int, p.y.raw as int, -(b.y.raw - a.y.raw), b.x.raw - a.x.raw)
}

/// Along the normal of edge `i` of `edges`, every point of `edges` lies
/// strictly before every point of `others`, or every one strictly after.
pub open spec fn separated_on(edges: Seq<Vec2f>, others: Seq<Vec2f>, i: int) -> bool {
    let a = edges[i];
    let b = edges[(i + 1) % (edges.len() as int)];
    ||| forall|j: int, k: int|
        0 <= j < edges.len() && 0 <= k < others.len() ==> projection(a, b, #[trigger] edges[j])
            < projection(a, b, #[trigger] others[k])
    ||| forall|j: int, k: int|
        0 <= j < edges.len() && 0 <= k < others.len() ==> projection(a, b, #[trigger] edges[j])
            > projection(a, b, #[trigger] others[k])
}

/// The normal of some edge of `edges` separates the two point sets.
pub open spec fn has_separating_edge(edges: Seq<Vec2f>, others: Seq<Vec2f>) -> bool {
    exists|i: int| 0 <= i < edges.len() && #[trigger] separated_on(edges, others, i)
}

/// Every point is within the coordinate limit.
pub open spec fn all_bounded(points: Seq<Vec2f>) -> bool {
    forall|i: int| 0 <= i < points.len() ==> (#[trigger] points[i]).bounded()
}

/// Sentinel above every projection.
pub const ABOVE_ALL: i128 = 0x10_0000_0000_0000_0000_0000_0000;

/// Sentinel below every projection.
pub const BELOW_ALL: i128 = -0x10_0000_0000_0000_0000_0000_0000;

fn project(a: Vec2f, b: Vec2f, p: Vec2f) -> (q: i128)
    requires
        a.bounded(),
        b.bounded(),
        p.bounded(),
    ensures
        q == projection(a, b, p),
        BELOW_ALL < q < ABOVE_ALL,
{
    let nx: i128 = -((b.y.raw as i128) - (a.y.raw as i128));
    let ny: i128 = (b.x.raw as i128) - (a.x.raw as i128);
    proof {
        crate::maths::vec::lemma_wide_bounds(
            p.x.raw as int,
            p.y.raw as int,
            nx as int,
            ny as int,
        );
    }
    (p.x.raw as i128) * nx + (p.y.raw as i128) * ny
}

/// The least and greatest projection of `points`, or the sentinels the
/// wrong way round if there are no points.
fn project_all(a: Vec2f, b: Vec2f, points: &[Vec2f]) -> (r: (i128, i128))
    requires
        a.bounded(),
        b.bounded(),
        all_bounded(points@),
    ensures
        points@.len() == 0 ==> r.0 == ABOVE_ALL && r.1 == BELOW_ALL,
        points@.len() > 0 ==> BELOW_ALL < r.0 <= r.1 < ABOVE_ALL,
        forall|j: int| 0 <= j < points@.len() ==> r.0 <= projection(a, b, #[trigger] points@[j]) <= r.1,
        points@.len() > 0 ==> exists|j: int|
            0 <= j < points@.len() && projection(a, b, #[trigger] points@[j]) == r.0,
        points@.len() > 0 ==> exists|j: int|
            0 <= j < points@.len() && projection(a, b, #[trigger] points@[j]) == r.1,
{
    let mut low: i128 = ABOVE_ALL;
    let mut high: i128 = BELOW_ALL;
    let mut i: usize = 0;
    while i < points.len()
        invariant
            i <= points@.len(),
            a.bounded(),
            b.bounded(),
            all_bounded(points@),
            i == 0 ==> low == ABOVE_ALL && high == BELOW_ALL,
            i > 0 ==> BELOW_ALL < low <= high < ABOVE_ALL,
            forall|j: int| 0 <= j < i ==> low <= projection(a, b, #[trigger] points@[j]) <= high,
            i > 0 ==> exists|j: int| 0 <= j < i && projection(a, b, #[trigger] points@[j]) == low,
            i > 0 ==> exists|j: int| 0 <= j < i && projection(a, b, #[trigger] points@[j]) == high,
        decreases points@.len() - i,
    {
        let q: i128 = project(a, b, points[i]);
        if q < low {
            low = q;
        }
        if q > high {
            high = q;
        }
        i = i + 1;
    }
    (low, high)
}

/// Tells whether the normal of some edge of `edges` separates the sets.
fn find_separating_edge(edges: &[Vec2f], others: &[Vec2f]) -> (r: bool)
    requires
        all_bounded(edges@),
        all_bounded(others@),
    ensures
        r == has_separating_edge(edges@, others@),
{
    let n: usize = edges.len();
    let mut i: usize = 0;
    while i < n
        invariant
            i <= n,
            n == edges@.len(),
            all_bounded(edges@),
            all_bounded(others@),
            forall|k: int| 0 <= k < i ==> !#[trigger] separated_on(edges@, others@, k),
        decreases n - i,
    {
        let j: usize = if i + 1 == n {
            0
        } else {
            i + 1
        };
        let a = edges[i];
        let b = edges[j];
        proof {
            crate::maths::vec::lemma_next_index(i as int, n as int);
        }
        assert(b == edges@[(i + 1) % (n as int)]);
        let (min_a, max_a) = project_all(a, b, edges);
        let (min_b, max_b) = project_all(a, b, others);
        if max_a < min_b || min_a > max_b {
            assert(separated_on(edges@, others@, i as int));
            return true;
        }
        proof {
            // `edges` holds at least the point `a`, so its extremes are
            // projections of its points; if `others` is empty the sentinels
            // would have separated the sets above.
            assert(others@.len() > 0);
            let ja = choose|j: int| 0 <= j < edges@.len() && projection(a, b, #[trigger] edges@[j]) == max_a;
            let kb = choose|k: int| 0 <= k < others@.len() && projection(a, b, #[trigger] others@[k]) == min_b;
            let ja2 = choose|j: int| 0 <= j < edges@.len() && projection(a, b, #[trigger] edges@[j]) == min_a;
            let kb2 = choose|k: int| 0 <= k < others@.len() && projection(a, b, #[trigger] others@[k]) == max_b;
            assert(!(projection(a, b, edges@[ja]) < projection(a, b, others@[kb])));
            assert(!(projection(a, b, edges@[ja2]) > projection(a, b, others@[kb2])));
        }
        i = i + 1;
    }
    false
}

/// Tells whether two convex point sets overlap: no normal of an edge of
/// either set separates them.
pub fn separating_axis_test(points_a: &[Vec2f], points_b: &[Vec2f]) -> (r: bool)
    requires
        all_bounded(points_a@),
        all_bounded(points_b@),
    ensures
        r == (!has_separating_edge(points_a@, points_b@) && !has_separating_edge(
            points_b@,
            points_a@,
        )),
{
    if find_separating_edge(points_a, points_b) {
        return false;
    }
    if find_separating_edge(points_b, points_a) {
        return false;
    }
    true
}

} // verus!
