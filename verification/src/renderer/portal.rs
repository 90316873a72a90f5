//! The windows through which sectors are seen, and their clip bounds.

use vstd::prelude::*;
use crate::fixed::Fixed;

verus! {

/// One window: the columns through which a sector is seen, at one depth of
/// the traversal.
#[derive(Clone, Copy, Debug, PartialEq, Eq, Structural)]
pub struct PortalNode {
    pub tree_depth: usize,
    pub sector_index: usize,
    /// First column of the window.
    pub x_min: usize,
    /// Column after the last column of the window.
    pub x_max: usize,
    pub depth_min: Fixed,
    pub depth_max: Fixed,
}

/// The windows of one frame in the order they were found, and for each depth
/// of the traversal one pair of rows that holds, for each column, the first
/// row of the window and the row after its last.
///
/// Windows of one depth share a pair of rows. A window seen through another
/// window lies one depth further down and so has rows of its own.
pub struct PortalTree {
    pub screen_width: usize,
    pub screen_height: usize,
    pub nodes: Vec<PortalNode>,
    pub portal_bounds_min: Vec<Vec<u16>>,
    pub portal_bounds_max: Vec<Vec<u16>>,
}

/// A row of window bounds that is zero in every column.
pub open spec fn open_lo(width: int) -> Seq<u16> {
    Seq::new(width as nat, |x: int| 0u16)
}

/// A row of window bounds that is `height` in every column.
pub open spec fn open_hi(width: int, height: int) -> Seq<u16> {
    Seq::new(width as nat, |x: int| height as u16)
}

/// The node through which a wall was seen, with the greatest depth noted in
/// it raised to `max_depth`.
pub open spec fn raised(node: PortalNode, max_depth: Fixed) -> PortalNode {
    PortalNode { depth_max: node.depth_max.spec_max(max_depth), ..node }
}

/// A row of `width` entries, each equal to `value`.
pub fn filled_row(width: usize, value: u16) -> (row: Vec<u16>)
    ensures
        row@.len() == width,
        forall|x: int| 0 <= x < width ==> row@[x] == value,
{
    let mut row: Vec<u16> = Vec::new();
    while row.len() < width
        invariant
            row@.len() <= width,
            forall|x: int| 0 <= x < row@.len() ==> row@[x] == value,
        decreases width - row.len(),
    {
        row.push(value);
    }
    row
}

impl PortalTree {
    /// Number of depths that have rows.
    pub open spec fn layers(&self) -> int {
        self.portal_bounds_min@.len() as int
    }

    /// First row of the window at depth `d` in column `x`.
    #[verifier::inline]
    pub open spec fn lo(&self, d: int, x: int) -> u16 {
        self.portal_bounds_min@[d]@[x]
    }

    /// Row after the last row of the window at depth `d` in column `x`.
    #[verifier::inline]
    pub open spec fn hi(&self, d: int, x: int) -> u16 {
        self.portal_bounds_max@[d]@[x]
    }

    /// Both families of rows have one row per depth and one entry per column,
    /// and in every column the bounds are in order and on the screen.
    pub open spec fn rows_ok(&self) -> bool {
        &&& self.screen_height <= u16::MAX
        &&& self.portal_bounds_max@.len() == self.portal_bounds_min@.len()
        &&& forall|d: int|
            0 <= d < self.layers() ==> (#[trigger] self.portal_bounds_min@[d])@.len()
                == self.screen_width
        &&& forall|d: int|
            0 <= d < self.layers() ==> (#[trigger] self.portal_bounds_max@[d])@.len()
                == self.screen_width
        &&& forall|d: int, x: int|
            0 <= d < self.layers() && 0 <= x < self.screen_width ==> (#[trigger] self.lo(d, x))
                <= self.hi(d, x) && self.hi(d, x) <= self.screen_height
    }

    /// The node has rows for its depth and its columns are on the screen.
    pub open spec fn node_ok(&self, node: PortalNode) -> bool {
        &&& node.tree_depth < self.layers()
        &&& node.x_min <= node.x_max <= self.screen_width
    }

    pub open spec fn wf(&self) -> bool {
        &&& self.rows_ok()
        &&& forall|i: int| 0 <= i < self.nodes@.len() ==> self.node_ok(#[trigger] self.nodes@[i])
    }

    /// The rows of the depths from `from` up to `to` are the full screen in
    /// every column.
    pub open spec fn layers_open(&self, from: int, to: int) -> bool {
        forall|d: int, x: int|
            from <= d < to && 0 <= x < self.screen_width ==> (#[trigger] self.lo(d, x)) == 0
                && self.hi(d, x) == self.screen_height
    }

    /// A tree without nodes and with rows for one depth.
    pub fn new(screen_width: usize, screen_height: usize) -> (tree: PortalTree)
        requires
            screen_height <= u16::MAX,
        ensures
            tree.wf(),
            tree.screen_width == screen_width,
            tree.screen_height == screen_height,
            tree.nodes@.len() == 0,
            tree.layers() == 1,
            tree.layers_open(0, 1),
    {
        Self::with_depth(1, screen_width, screen_height)
    }

    /// A tree without nodes and with rows for `depth` depths, every one the
    /// full screen.
    pub fn with_depth(depth: usize, screen_width: usize, screen_height: usize) -> (tree:
        PortalTree)
        requires
            screen_height <= u16::MAX,
        ensures
            tree.wf(),
            tree.screen_width == screen_width,
            tree.screen_height == screen_height,
            tree.nodes@.len() == 0,
            tree.layers() == depth,
            tree.layers_open(0, depth as int),
    {
        let mut tree = PortalTree {
            screen_width,
            screen_height,
            nodes: Vec::new(),
            portal_bounds_min: Vec::new(),
            portal_bounds_max: Vec::new(),
        };
        let mut d: usize = 0;
        while d < depth
            invariant
                d <= depth,
                tree.wf(),
                tree.screen_width == screen_width,
                tree.screen_height == screen_height,
                tree.nodes@.len() == 0,
                tree.layers() == d,
                tree.layers_open(0, d as int),
            decreases depth - d,
        {
            tree.add_layer();
            d = d + 1;
        }
        tree
    }

    /// Takes a new screen size. Every row is the full new screen afterwards;
    /// the nodes are dropped.
    pub fn resize_bounds(&mut self, screen_width: usize, screen_height: usize)
        requires
            screen_height <= u16::MAX,
            old(self).portal_bounds_max@.len() == old(self).portal_bounds_min@.len(),
        ensures
            final(self).wf(),
            final(self).screen_width == screen_width,
            final(self).screen_height == screen_height,
            final(self).nodes@.len() == 0,
            final(self).layers() == old(self).layers(),
            final(self).layers_open(0, final(self).layers()),
    {
        self.screen_width = screen_width;
        self.screen_height = screen_height;
        self.nodes.clear();
        let count: usize = self.portal_bounds_min.len();
        let mut d: usize = 0;
        while d < count
            invariant
                d <= count,
                count == self.portal_bounds_min@.len(),
                count == self.portal_bounds_max@.len(),
                self.screen_width == screen_width,
                self.screen_height == screen_height,
                screen_height <= u16::MAX,
                self.nodes@.len() == 0,
                forall|k: int|
                    0 <= k < d ==> (#[trigger] self.portal_bounds_min@[k])@.len() == screen_width,
                forall|k: int|
                    0 <= k < d ==> (#[trigger] self.portal_bounds_max@[k])@.len() == screen_width,
                forall|k: int, x: int|
                    0 <= k < d && 0 <= x < screen_width ==> (#[trigger] self.lo(k, x)) == 0
                        && self.hi(k, x) == screen_height,
            decreases count - d,
        {
            let ghost before = *self;
            let low: Vec<u16> = filled_row(screen_width, 0);
            let high: Vec<u16> = filled_row(screen_width, screen_height as u16);
            self.portal_bounds_min[d] = low;
            self.portal_bounds_max[d] = high;
            proof {
                assert forall|k: int, x: int|
                    0 <= k < d + 1 && 0 <= x < screen_width implies (#[trigger] self.lo(k, x)) == 0
                    && self.hi(k, x) == screen_height by {
                    if k < d {
                        assert(before.lo(k, x) == 0);
                        assert(self.portal_bounds_min@[k] == before.portal_bounds_min@[k]);
                        assert(self.portal_bounds_max@[k] == before.portal_bounds_max@[k]);
                    } else {
                        assert(self.portal_bounds_min@[k] == low);
                        assert(self.portal_bounds_max@[k] == high);
                    }
                }
            }
            d = d + 1;
        }
    }

    /// Drops the nodes and makes the rows of depth 0 the full screen. Rows
    /// of further depths are kept; they are written again before a node
    /// refers to them.
    pub fn reset(&mut self)
        requires
            old(self).wf(),
        ensures
            final(self).wf(),
            final(self).screen_width == old(self).screen_width,
            final(self).screen_height == old(self).screen_height,
            final(self).nodes@.len() == 0,
            final(self).layers() == old(self).layers(),
            final(self).layers() > 0 ==> final(self).layers_open(0, 1),
            forall|d: int, x: int|
                1 <= d < final(self).layers() && 0 <= x < final(self).screen_width ==> {
                    &&& #[trigger] final(self).lo(d, x) == old(self).lo(d, x)
                    &&& final(self).hi(d, x) == old(self).hi(d, x)
                },
    {
        self.nodes.clear();
        if self.portal_bounds_min.len() > 0 {
            self.portal_bounds_min[0] = filled_row(self.screen_width, 0);
            self.portal_bounds_max[0] = filled_row(self.screen_width, self.screen_height as u16);
            proof {
                assert forall|d: int, x: int|
                    0 <= d < self.layers() && 0 <= x < self.screen_width implies #[trigger] self.lo(
                    d,
                    x,
                ) <= self.hi(d, x) <= self.screen_height by {
                    if d > 0 {
                        assert(self.lo(d, x) == old(self).lo(d, x));
                        assert(self.hi(d, x) == old(self).hi(d, x));
                    }
                }
            }
        }
    }

    /// Appends a node, first adding full-screen rows until its depth has
    /// rows.
    pub fn push_node(&mut self, node: PortalNode)
        requires
            old(self).wf(),
            node.x_min <= node.x_max <= old(self).screen_width,
            node.tree_depth < usize::MAX,
        ensures
            final(self).wf(),
            final(self).screen_width == old(self).screen_width,
            final(self).screen_height == old(self).screen_height,
            final(self).nodes@ == old(self).nodes@.push(node),
            final(self).layers() == if node.tree_depth < old(self).layers() {
                old(self).layers()
            } else {
                node.tree_depth + 1
            },
            forall|d: int, x: int|
                0 <= d < old(self).layers() && 0 <= x < old(self).screen_width ==> {
                    &&& #[trigger] final(self).lo(d, x) == old(self).lo(d, x)
                    &&& final(self).hi(d, x) == old(self).hi(d, x)
                },
            final(self).layers_open(old(self).layers(), final(self).layers()),
            forall|d: int|
                0 <= d < old(self).layers() ==> #[trigger] final(self).portal_bounds_min@[d]
                    == old(self).portal_bounds_min@[d],
            forall|d: int|
                0 <= d < old(self).layers() ==> #[trigger] final(self).portal_bounds_max@[d]
                    == old(self).portal_bounds_max@[d],
    {
        self.ensure_layer(node.tree_depth);
        self.nodes.push(node);
    }

    /// Adds full-screen rows until depth `depth` has rows.
    pub fn ensure_layer(&mut self, depth: usize)
        requires
            old(self).wf(),
            depth < usize::MAX,
        ensures
            final(self).wf(),
            final(self).screen_width == old(self).screen_width,
            final(self).screen_height == old(self).screen_height,
            final(self).nodes@ == old(self).nodes@,
            final(self).layers() == if depth < old(self).layers() {
                old(self).layers()
            } else {
                depth + 1
            },
            forall|d: int|
                0 <= d < old(self).layers() ==> #[trigger] final(self).portal_bounds_min@[d]
                    == old(self).portal_bounds_min@[d],
            forall|d: int|
                0 <= d < old(self).layers() ==> #[trigger] final(self).portal_bounds_max@[d]
                    == old(self).portal_bounds_max@[d],
            final(self).layers_open(old(self).layers(), final(self).layers()),
    {
        while depth >= self.portal_bounds_min.len()
            invariant
                self.wf(),
                self.screen_width == old(self).screen_width,
                self.screen_height == old(self).screen_height,
                self.nodes@ == old(self).nodes@,
                old(self).layers() <= self.layers(),
                self.layers() <= depth + 1 || self.layers() == old(self).layers(),
                depth < old(self).layers() ==> self.layers() == old(self).layers(),
                forall|d: int|
                    0 <= d < old(self).layers() ==> #[trigger] self.portal_bounds_min@[d]
                        == old(self).portal_bounds_min@[d],
                forall|d: int|
                    0 <= d < old(self).layers() ==> #[trigger] self.portal_bounds_max@[d]
                        == old(self).portal_bounds_max@[d],
                self.layers_open(old(self).layers(), self.layers()),
            decreases depth + 1 - self.portal_bounds_min@.len(),
        {
            self.add_layer();
        }
    }

    /// Notes that a portal was seen through node `index`: the greatest
    /// depth of that node is raised to `max_depth`, full-screen rows are
    /// added until the depth of `child` has rows, and `child` is appended.
    pub fn note_portal(&mut self, index: usize, max_depth: Fixed, child: PortalNode)
        requires
            old(self).wf(),
            index < old(self).nodes@.len(),
            child.x_min <= child.x_max <= old(self).screen_width,
            child.tree_depth < usize::MAX,
        ensures
            final(self).wf(),
            final(self).screen_width == old(self).screen_width,
            final(self).screen_height == old(self).screen_height,
            final(self).nodes@ == old(self).nodes@.update(
                index as int,
                raised(old(self).nodes@[index as int], max_depth),
            ).push(child),
            final(self).layers() == if child.tree_depth < old(self).layers() {
                old(self).layers()
            } else {
                child.tree_depth + 1
            },
            forall|d: int|
                0 <= d < old(self).layers() ==> #[trigger] final(self).portal_bounds_min@[d]
                    == old(self).portal_bounds_min@[d],
            forall|d: int|
                0 <= d < old(self).layers() ==> #[trigger] final(self).portal_bounds_max@[d]
                    == old(self).portal_bounds_max@[d],
            forall|d: int|
                old(self).layers() <= d < final(self).layers() ==> (
                #[trigger] final(self).portal_bounds_min@[d])@ == open_lo(
                    old(self).screen_width as int,
                ),
            forall|d: int|
                old(self).layers() <= d < final(self).layers() ==> (
                #[trigger] final(self).portal_bounds_max@[d])@ == open_hi(
                    old(self).screen_width as int,
                    old(self).screen_height as int,
                ),
    {
        let node: PortalNode = self.nodes[index];
        let ghost before = *self;
        self.nodes[index] = PortalNode { depth_max: node.depth_max.max(max_depth), ..node };
        proof {
            assert forall|i: int| 0 <= i < self.nodes@.len() implies self.node_ok(
                #[trigger] self.nodes@[i],
            ) by {
                assert(before.node_ok(before.nodes@[i]));
            }
            assert forall|d: int, c: int|
                0 <= d < self.layers() && 0 <= c < self.screen_width implies (#[trigger] self.lo(
                d,
                c,
            )) <= self.hi(d, c) && self.hi(d, c) <= self.screen_height by {
                assert(before.lo(d, c) <= before.hi(d, c));
                assert(before.hi(d, c) <= before.screen_height);
            }
        }
        self.push_node(child);
        proof {
            assert forall|d: int| before.layers() <= d < self.layers() implies (
            #[trigger] self.portal_bounds_min@[d])@ == open_lo(before.screen_width as int) by {
                assert forall|c: int| 0 <= c < before.screen_width implies #[trigger] self.lo(d, c)
                    == 0 by {}
                assert(self.portal_bounds_min@[d]@ =~= open_lo(before.screen_width as int));
            }
            assert forall|d: int| before.layers() <= d < self.layers() implies (
            #[trigger] self.portal_bounds_max@[d])@ == open_hi(
                before.screen_width as int,
                before.screen_height as int,
            ) by {
                assert forall|c: int| 0 <= c < before.screen_width implies #[trigger] self.hi(d, c)
                    == before.screen_height by {
                    assert(self.lo(d, c) == 0);
                }
                assert(self.portal_bounds_max@[d]@ =~= open_hi(
                    before.screen_width as int,
                    before.screen_height as int,
                ));
            }
        }
    }

    /// Sets the window of depth `depth` in column `x` to the rows from `lo`
    /// up to `hi`.
    pub fn set_bounds(&mut self, depth: usize, x: usize, lo: u16, hi: u16)
        requires
            old(self).wf(),
            depth < old(self).layers(),
            x < old(self).screen_width,
            lo <= hi <= old(self).screen_height,
        ensures
            final(self).wf(),
            final(self).screen_width == old(self).screen_width,
            final(self).screen_height == old(self).screen_height,
            final(self).nodes@ == old(self).nodes@,
            final(self).layers() == old(self).layers(),
            forall|d: int|
                0 <= d < old(self).layers() && d != depth ==> #[trigger] final(self).portal_bounds_min@[d]
                    == old(self).portal_bounds_min@[d],
            forall|d: int|
                0 <= d < old(self).layers() && d != depth ==> #[trigger] final(self).portal_bounds_max@[d]
                    == old(self).portal_bounds_max@[d],
            final(self).portal_bounds_min@[depth as int]@ == old(
                self,
            ).portal_bounds_min@[depth as int]@.update(x as int, lo),
            final(self).portal_bounds_max@[depth as int]@ == old(
                self,
            ).portal_bounds_max@[depth as int]@.update(x as int, hi),
    {
        self.portal_bounds_min[depth][x] = lo;
        self.portal_bounds_max[depth][x] = hi;
        proof {
            assert forall|d: int, c: int|
                0 <= d < self.layers() && 0 <= c < self.screen_width implies (#[trigger] self.lo(
                d,
                c,
            )) <= self.hi(d, c) && self.hi(d, c) <= self.screen_height by {
                assert(old(self).lo(d, c) <= old(self).hi(d, c));
                assert(old(self).hi(d, c) <= old(self).screen_height);
            }
            assert forall|i: int| 0 <= i < self.nodes@.len() implies self.node_ok(
                #[trigger] self.nodes@[i],
            ) by {
                assert(old(self).node_ok(old(self).nodes@[i]));
            }
        }
    }

    /// The window of depth `depth` in column `x`: its first row and the row
    /// after its last.
    pub fn bounds_at(&self, depth: usize, x: usize) -> (r: (u16, u16))
        requires
            self.wf(),
            depth < self.layers(),
            x < self.screen_width,
        ensures
            r.0 == self.portal_bounds_min@[depth as int]@[x as int],
            r.1 == self.portal_bounds_max@[depth as int]@[x as int],
            r.0 <= r.1 <= self.screen_height,
    {
        assert(self.lo(depth as int, x as int) <= self.hi(depth as int, x as int)
            <= self.screen_height);
        (self.portal_bounds_min[depth][x], self.portal_bounds_max[depth][x])
    }

    /// The node at `index`.
    pub fn get_node(&self, index: usize) -> (node: &PortalNode)
        requires
            index < self.nodes@.len(),
        ensures
            *node == self.nodes@[index as int],
    {
        &self.nodes[index]
    }

    /// Number of nodes.
    pub fn nodes_len(&self) -> (n: usize)
        ensures
            n == self.nodes@.len(),
    {
        self.nodes.len()
    }

    /// The two rows of depth `depth`.
    pub fn get_bounds(&self, depth: usize) -> (rows: (&[u16], &[u16]))
        requires
            depth < self.portal_bounds_min@.len(),
            depth < self.portal_bounds_max@.len(),
        ensures
            rows.0@ == self.portal_bounds_min@[depth as int]@,
            rows.1@ == self.portal_bounds_max@[depth as int]@,
    {
        (self.portal_bounds_min[depth].as_slice(), self.portal_bounds_max[depth].as_slice())
    }

    /// The rows of two different depths, both to be changed at once.
    pub fn get_many_bounds_mut(&mut self, depth_1: usize, depth_2: usize) -> (r: (
        (&mut Vec<u16>, &mut Vec<u16>),
        (&mut Vec<u16>, &mut Vec<u16>),
    ))
        requires
            depth_1 != depth_2,
            depth_1 < old(self).portal_bounds_min@.len(),
            depth_2 < old(self).portal_bounds_min@.len(),
            old(self).portal_bounds_max@.len() == old(self).portal_bounds_min@.len(),
        ensures
            *r.0.0 == old(self).portal_bounds_min@[depth_1 as int],
            *r.0.1 == old(self).portal_bounds_max@[depth_1 as int],
            *r.1.0 == old(self).portal_bounds_min@[depth_2 as int],
            *r.1.1 == old(self).portal_bounds_max@[depth_2 as int],
            final(self).portal_bounds_min@ == old(self).portal_bounds_min@.update(
                depth_1 as int,
                *final(r.0.0),
            ).update(depth_2 as int, *final(r.1.0)),
            final(self).portal_bounds_max@ == old(self).portal_bounds_max@.update(
                depth_1 as int,
                *final(r.0.1),
            ).update(depth_2 as int, *final(r.1.1)),
            final(self).nodes == old(self).nodes,
            final(self).screen_width == old(self).screen_width,
            final(self).screen_height == old(self).screen_height,
    {
        if depth_1 < depth_2 {
            let (min_head, min_tail) = self.portal_bounds_min.as_mut_slice().split_at_mut(depth_2);
            let (max_head, max_tail) = self.portal_bounds_max.as_mut_slice().split_at_mut(depth_2);
            ((&mut min_head[depth_1], &mut max_head[depth_1]), (&mut min_tail[0], &mut max_tail[0]))
        } else {
            let (min_head, min_tail) = self.portal_bounds_min.as_mut_slice().split_at_mut(depth_1);
            let (max_head, max_tail) = self.portal_bounds_max.as_mut_slice().split_at_mut(depth_1);
            ((&mut min_tail[0], &mut max_tail[0]), (&mut min_head[depth_2], &mut max_head[depth_2]))
        }
    }

    /// Appends rows for one more depth, the full screen in every column.
    pub fn add_layer(&mut self)
        requires
            old(self).wf(),
        ensures
            final(self).wf(),
            final(self).screen_width == old(self).screen_width,
            final(self).screen_height == old(self).screen_height,
            final(self).nodes@ == old(self).nodes@,
            final(self).layers() == old(self).layers() + 1,
            final(self).layers_open(old(self).layers(), old(self).layers() + 1),
            forall|d: int, x: int|
                0 <= d < old(self).layers() && 0 <= x < old(self).screen_width ==> {
                    &&& #[trigger] final(self).lo(d, x) == old(self).lo(d, x)
                    &&& final(self).hi(d, x) == old(self).hi(d, x)
                },
            forall|d: int|
                0 <= d < old(self).layers() ==> #[trigger] final(self).portal_bounds_min@[d]
                    == old(self).portal_bounds_min@[d],
            forall|d: int|
                0 <= d < old(self).layers() ==> #[trigger] final(self).portal_bounds_max@[d]
                    == old(self).portal_bounds_max@[d],
    {
        let low: Vec<u16> = filled_row(self.screen_width, 0);
        let high: Vec<u16> = filled_row(self.screen_width, self.screen_height as u16);
        self.portal_bounds_min.push(low);
        self.portal_bounds_max.push(high);
        proof {
            assert forall|d: int, x: int|
                0 <= d < self.layers() && 0 <= x < self.screen_width implies #[trigger] self.lo(d, x)
                <= self.hi(d, x) <= self.screen_height by {
                if d < old(self).layers() {
                    assert(self.lo(d, x) == old(self).lo(d, x));
                    assert(self.hi(d, x) == old(self).hi(d, x));
                }
            }
            assert forall|i: int| 0 <= i < self.nodes@.len() implies self.node_ok(
                #[trigger] self.nodes@[i],
            ) by {
                assert(old(self).node_ok(old(self).nodes@[i]));
            }
        }
    }
}

} // verus!
