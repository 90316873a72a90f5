//! Windows of one depth share no column, where the portal walls of each
//! sector do not overlap on the screen.

use vstd::prelude::*;
use crate::player::Player;
use crate::renderer::portal::PortalNode;
use crate::renderer::renderer::frame_stage;
use crate::renderer::renderer::update_post;
use crate::renderer::renderer::Renderer;
use crate::renderer::renderer::frame_scene;
use crate::renderer::renderer::frame_start;
use crate::renderer::scene::scene_sector;
use crate::renderer::scene::scene_traversed;
use crate::renderer::scene::scene_wall;
use crate::renderer::scene::scene_walls;
use crate::renderer::scene::Scene;
use crate::renderer::scene::Stage;
use crate::renderer::wall::lemma_prepared_portal_columns;
use crate::renderer::wall::spec_prepare_portal_wall;
use crate::renderer::wall::PortalHeights;
use crate::surface::sector_ok;
use crate::surface::wall_ok;
use crate::surface::world_ok;
use crate::surface::Sector;
use crate::surface::Sprite;
use crate::surface::Wall;
use crate::textures::Texture;

verus! {

/// The two windows share no column.
pub open spec fn apart(a: PortalNode, b: PortalNode) -> bool {
    a.x_max <= b.x_min || b.x_max <= a.x_min
}

/// The columns of `inner` are columns of `outer`.
pub open spec fn inside(inner: PortalNode, outer: PortalNode) -> bool {
    outer.x_min <= inner.x_min && inner.x_min <= inner.x_max && inner.x_max <= outer.x_max
}

/// The window `after` is the window `before`, but for the depths noted in
/// it.
pub open spec fn same_window(after: PortalNode, before: PortalNode) -> bool {
    &&& after.tree_depth == before.tree_depth
    &&& after.sector_index == before.sector_index
    &&& after.x_min == before.x_min
    &&& after.x_max == before.x_max
}

/// No two windows of one depth share a column.
pub open spec fn windows_apart(nodes: Seq<PortalNode>) -> bool {
    forall|i: int, j: int|
        0 <= i < j < nodes.len() && nodes[i].tree_depth == nodes[j].tree_depth ==> apart(
            #[trigger] nodes[i],
            #[trigger] nodes[j],
        )
}

/// The columns of the window behind `wall` of `sector` as it is seen
/// through `window`, if the wall is a portal and in view.
#[verifier::opaque]
pub open spec fn window_behind(
    stage: &Stage,
    sectors: Seq<Sector>,
    sector: Sector,
    window: PortalNode,
    wall: &Wall,
) -> Option<(usize, usize)> {
    match wall.portal {
        None => None,
        Some(portal) => {
            let next = sectors[portal.sector as int];
            match spec_prepare_portal_wall(
                &stage.lens,
                stage.frustum,
                window,
                PortalHeights {
                    ceiling: sector.ceiling.height,
                    floor: sector.floor.height,
                    next_ceiling: next.ceiling.height,
                    next_floor: next.floor.height,
                },
                wall,
            ) {
                None => None,
                Some(job) => Some((job.x_min, job.x_max)),
            }
        },
    }
}

/// Two ranges of columns, where there are two, share no column.
pub open spec fn ranges_apart(a: Option<(usize, usize)>, b: Option<(usize, usize)>) -> bool {
    match (a, b) {
        (Some(p), Some(q)) => p.1 <= q.0 || q.1 <= p.0,
        _ => true,
    }
}

/// The windows behind the walls `i` and `j` of sector `s`, as they are
/// seen through `window`, share no column.
pub open spec fn pair_apart(
    stage: &Stage,
    sectors: Seq<Sector>,
    s: int,
    window: PortalNode,
    i: int,
    j: int,
) -> bool {
    ranges_apart(
        window_behind(stage, sectors, sectors[s], window, &sectors[s].walls@[i]),
        window_behind(stage, sectors, sectors[s], window, &sectors[s].walls@[j]),
    )
}

/// No two portal walls of one sector overlap on the screen: through
/// whatever window the sector is seen, the windows behind two of its walls
/// share no column.
pub open spec fn portals_apart(stage: &Stage, sectors: Seq<Sector>) -> bool {
    forall|s: int, window: PortalNode, i: int, j: int|
        0 <= s < sectors.len() && 0 <= i < j < sectors[s].walls@.len() && window.x_min
            <= window.x_max ==> #[trigger] pair_apart(stage, sectors, s, window, i, j)
}

/// The window behind a wall depends on the columns of the window through
/// which the wall is seen, not on the depths noted in it.
pub proof fn lemma_window_by_columns(
    stage: &Stage,
    sectors: Seq<Sector>,
    sector: Sector,
    first: PortalNode,
    second: PortalNode,
    wall: &Wall,
)
    requires
        first.x_min == second.x_min,
        first.x_max == second.x_max,
    ensures
        window_behind(stage, sectors, sector, first, wall) == window_behind(
            stage,
            sectors,
            sector,
            second,
            wall,
        ),
{
    reveal(window_behind);
}

/// What one wall seen through node `index` makes of the nodes: every node
/// keeps its window, and a portal wall in view appends the window behind
/// it, one depth further down and inside the window of the node.
pub proof fn lemma_wall_nodes(
    scene: Scene,
    stage: &Stage,
    sectors: Seq<Sector>,
    textures: Seq<Texture>,
    index: int,
    wall: &Wall,
)
    requires
        0 <= index < scene.nodes.len(),
        scene.nodes[index].x_min <= scene.nodes[index].x_max,
        scene.nodes[index].tree_depth < usize::MAX,
    ensures
        ({
            let node = scene.nodes[index];
            let after = scene_wall(scene, stage, sectors, textures, index, wall);
            let behind = window_behind(
                stage,
                sectors,
                sectors[node.sector_index as int],
                node,
                wall,
            );
            &&& after.nodes.len() >= scene.nodes.len()
            &&& forall|k: int|
                0 <= k < scene.nodes.len() ==> same_window(#[trigger] after.nodes[k], scene.nodes[k])
            &&& match behind {
                None => after.nodes.len() == scene.nodes.len(),
                Some(columns) => {
                    let child = after.nodes[scene.nodes.len() as int];
                    &&& after.nodes.len() == scene.nodes.len() + 1
                    &&& child.x_min == columns.0
                    &&& child.x_max == columns.1
                    &&& child.tree_depth == node.tree_depth + 1
                    &&& inside(child, node)
                    &&& wall.portal is Some
                    &&& child.sector_index == sectors[wall.portal.unwrap().sector as int].id
                },
            }
        }),
{
    reveal(window_behind);
    let node = scene.nodes[index];
    let sector = sectors[node.sector_index as int];
    let after = scene_wall(scene, stage, sectors, textures, index, wall);
    match wall.portal {
        Some(portal) => {
            let next = sectors[portal.sector as int];
            let heights = PortalHeights {
                ceiling: sector.ceiling.height,
                floor: sector.floor.height,
                next_ceiling: next.ceiling.height,
                next_floor: next.floor.height,
            };
            lemma_prepared_portal_columns(&stage.lens, stage.frustum, node, heights, wall);
            let made = spec_prepare_portal_wall(&stage.lens, stage.frustum, node, heights, wall);
            if made is Some {
                assert(after.nodes.len() == scene.nodes.len() + 1);
                assert forall|k: int| 0 <= k < scene.nodes.len() implies same_window(
                    #[trigger] after.nodes[k],
                    scene.nodes[k],
                ) by {}
            }
        },
        None => {
            assert forall|k: int| 0 <= k < scene.nodes.len() implies same_window(
                #[trigger] after.nodes[k],
                scene.nodes[k],
            ) by {}
        },
    }
}

/// What the walls of the sector of node `index` have made of the nodes
/// `before`: every node keeps its window; the nodes that were appended
/// lie one depth below that node, inside its window and in sectors of the
/// world, and no two of them share a column.
pub open spec fn sector_nodes_ok(
    before: Seq<PortalNode>,
    after: Seq<PortalNode>,
    index: int,
    sector_count: int,
) -> bool {
    let node = before[index];
    &&& after.len() >= before.len()
    &&& forall|k: int| 0 <= k < before.len() ==> same_window(#[trigger] after[k], before[k])
    &&& forall|k: int|
        before.len() <= k < after.len() ==> (#[trigger] after[k]).tree_depth == node.tree_depth + 1
            && inside(after[k], node) && after[k].sector_index < sector_count
    &&& forall|k: int, l: int|
        before.len() <= k < l < after.len() ==> apart(#[trigger] after[k], #[trigger] after[l])
}

/// The window `child` shares no column with the window behind wall `j` of
/// the sector of `node`, as it is seen through `node`.
pub open spec fn clear_of_wall(
    stage: &Stage,
    sectors: Seq<Sector>,
    node: PortalNode,
    child: PortalNode,
    j: int,
) -> bool {
    let sector = sectors[node.sector_index as int];
    ranges_apart(
        Some((child.x_min, child.x_max)),
        window_behind(stage, sectors, sector, node, &sector.walls@[j]),
    )
}

/// None of the nodes appended to `before` shares a column with the window
/// behind any wall of the sector from wall `n` on.
pub open spec fn clear_of_later_walls(
    stage: &Stage,
    sectors: Seq<Sector>,
    before: Seq<PortalNode>,
    after: Seq<PortalNode>,
    index: int,
    n: int,
) -> bool {
    let node = before[index];
    let sector = sectors[node.sector_index as int];
    forall|k: int, j: int|
        before.len() <= k < after.len() && n <= j < sector.walls@.len() ==> #[trigger] clear_of_wall(
            stage,
            sectors,
            node,
            after[k],
            j,
        )
}

/// What wall `n - 1` of the sector of node `index` has made of the nodes
/// `prior`: every node keeps its window, and if the wall has a window
/// behind it, that window is appended.
pub open spec fn wall_nodes_ok(
    stage: &Stage,
    sectors: Seq<Sector>,
    node: PortalNode,
    prior: Seq<PortalNode>,
    after: Seq<PortalNode>,
    n: int,
) -> bool {
    let sector = sectors[node.sector_index as int];
    let wall = sector.walls@[n - 1];
    &&& after.len() >= prior.len()
    &&& forall|k: int| 0 <= k < prior.len() ==> same_window(#[trigger] after[k], prior[k])
    &&& match window_behind(stage, sectors, sector, node, &wall) {
        None => after.len() == prior.len(),
        Some(columns) => {
            let child = after[prior.len() as int];
            &&& after.len() == prior.len() + 1
            &&& child.x_min == columns.0
            &&& child.x_max == columns.1
            &&& child.tree_depth == node.tree_depth + 1
            &&& inside(child, node)
            &&& wall.portal is Some
            &&& child.sector_index == sectors[wall.portal.unwrap().sector as int].id
        },
    }
}

/// One more wall keeps what [`sector_nodes_ok`] and
/// [`clear_of_later_walls`] say of the nodes.
pub proof fn lemma_nodes_step(
    stage: &Stage,
    sectors: Seq<Sector>,
    textures: Seq<Texture>,
    before: Seq<PortalNode>,
    prior: Seq<PortalNode>,
    after: Seq<PortalNode>,
    index: int,
    n: int,
)
    requires
        world_ok(sectors, textures),
        portals_apart(stage, sectors),
        0 <= index < before.len(),
        before[index].x_min <= before[index].x_max,
        before[index].sector_index < sectors.len(),
        1 <= n <= sectors[before[index].sector_index as int].walls@.len(),
        sector_nodes_ok(before, prior, index, sectors.len() as int),
        clear_of_later_walls(stage, sectors, before, prior, index, n - 1),
        wall_nodes_ok(stage, sectors, before[index], prior, after, n),
    ensures
        sector_nodes_ok(before, after, index, sectors.len() as int),
        clear_of_later_walls(stage, sectors, before, after, index, n),
{
    let node = before[index];
    let s = node.sector_index as int;
    let sector = sectors[s];
    let count = sectors.len() as int;
    let wall = sector.walls@[n - 1];
    let behind = window_behind(stage, sectors, sector, node, &wall);
    assert(sector_ok(sector, s, count, textures.len() as int));
    assert(wall_ok(sector.walls@[n - 1], count, textures.len() as int));
    let len0 = before.len() as int;
    let len1 = prior.len() as int;
    assert forall|k: int| 0 <= k < len0 implies same_window(#[trigger] after[k], before[k]) by {
        assert(same_window(after[k], prior[k]));
        assert(same_window(prior[k], before[k]));
    }
    assert forall|k: int| len0 <= k < after.len() implies (#[trigger] after[k]).tree_depth
        == node.tree_depth + 1 && inside(after[k], node) && after[k].sector_index < count by {
        if k < len1 {
            assert(same_window(after[k], prior[k]));
            assert(prior[k].tree_depth == node.tree_depth + 1);
            assert(inside(prior[k], node));
        } else {
            assert(behind is Some);
            let next = wall.portal.unwrap().sector as int;
            assert(sector_ok(sectors[next], next, count, textures.len() as int));
        }
    }
    assert forall|k: int, j: int|
        len0 <= k < after.len() && n <= j < sector.walls@.len() implies #[trigger] clear_of_wall(
        stage,
        sectors,
        node,
        after[k],
        j,
    ) by {
        if k < len1 {
            assert(same_window(after[k], prior[k]));
            assert(clear_of_wall(stage, sectors, node, prior[k], j));
        } else {
            assert(pair_apart(stage, sectors, s, node, n - 1, j));
        }
    }
    assert forall|k: int, l: int| len0 <= k < l < after.len() implies apart(
        #[trigger] after[k],
        #[trigger] after[l],
    ) by {
        assert(same_window(after[k], prior[k]));
        if l < len1 {
            assert(same_window(after[l], prior[l]));
            assert(apart(prior[k], prior[l]));
        } else {
            assert(clear_of_wall(stage, sectors, node, prior[k], n - 1));
        }
    }
}

/// The first `n` walls of the sector of node `index` leave the nodes as
/// [`sector_nodes_ok`] says, if no two portal walls of the sector overlap
/// on the screen.
pub proof fn lemma_walls_nodes(
    scene: Scene,
    stage: &Stage,
    sectors: Seq<Sector>,
    textures: Seq<Texture>,
    index: int,
    n: int,
)
    requires
        world_ok(sectors, textures),
        portals_apart(stage, sectors),
        0 <= index < scene.nodes.len(),
        scene.nodes[index].x_min <= scene.nodes[index].x_max,
        scene.nodes[index].tree_depth < usize::MAX,
        scene.nodes[index].sector_index < sectors.len(),
        0 <= n <= sectors[scene.nodes[index].sector_index as int].walls@.len(),
    ensures
        ({
            let sector = sectors[scene.nodes[index].sector_index as int];
            let after = scene_walls(scene, stage, sectors, textures, index, sector.walls@, n);
            &&& sector_nodes_ok(scene.nodes, after.nodes, index, sectors.len() as int)
            &&& clear_of_later_walls(stage, sectors, scene.nodes, after.nodes, index, n)
        }),
    decreases n,
{
    let node = scene.nodes[index];
    let sector = sectors[node.sector_index as int];
    if n > 0 {
        lemma_walls_nodes(scene, stage, sectors, textures, index, n - 1);
        let prior = scene_walls(scene, stage, sectors, textures, index, sector.walls@, n - 1);
        let wall = &sector.walls@[n - 1];
        let after = scene_walls(scene, stage, sectors, textures, index, sector.walls@, n);
        assert(after == scene_wall(prior, stage, sectors, textures, index, wall));
        let window = prior.nodes[index];
        assert(same_window(window, node));
        lemma_wall_nodes(prior, stage, sectors, textures, index, wall);
        lemma_window_by_columns(stage, sectors, sector, window, node, wall);
        lemma_nodes_step(stage, sectors, textures, scene.nodes, prior.nodes, after.nodes, index, n);
    }
}

/// Drawing the sector of node `index` leaves the nodes as
/// [`sector_nodes_ok`] says, if no two portal walls of the sector overlap
/// on the screen.
pub proof fn lemma_sector_nodes(
    scene: Scene,
    stage: &Stage,
    sectors: Seq<Sector>,
    textures: Seq<Texture>,
    index: int,
)
    requires
        world_ok(sectors, textures),
        portals_apart(stage, sectors),
        0 <= index < scene.nodes.len(),
        scene.nodes[index].x_min <= scene.nodes[index].x_max,
        scene.nodes[index].tree_depth < usize::MAX,
        scene.nodes[index].sector_index < sectors.len(),
    ensures
        sector_nodes_ok(
            scene.nodes,
            scene_sector(scene, stage, sectors, textures, index).nodes,
            index,
            sectors.len() as int,
        ),
{
    let node = scene.nodes[index];
    let sector = sectors[node.sector_index as int];
    let cleared = Scene {
        wall_min: crate::renderer::scene::bounds_reset(
            scene.wall_min,
            scene.rows_min[node.tree_depth as int],
            node.x_min as int,
            node.x_max - node.x_min,
        ),
        wall_max: crate::renderer::scene::bounds_reset(
            scene.wall_max,
            scene.rows_max[node.tree_depth as int],
            node.x_min as int,
            node.x_max - node.x_min,
        ),
        ..scene
    };
    lemma_walls_nodes(cleared, stage, sectors, textures, index, sector.walls@.len() as int);
    let walled = scene_walls(
        cleared,
        stage,
        sectors,
        textures,
        index,
        sector.walls@,
        sector.walls@.len() as int,
    );
    assert(scene_sector(scene, stage, sectors, textures, index).nodes == walled.nodes);
}

/// What holds of the nodes before node `index` is drawn: no two windows
/// of one depth share a column; every window has its columns in order,
/// lies in a sector of the world and no deeper than its place in the
/// list; depths do not fall along the list; no node lies more than one
/// depth below node `index`; and the windows one depth below node `index`
/// share no column with the windows of its depth that are yet to be
/// drawn.
pub open spec fn tree_ok(nodes: Seq<PortalNode>, index: int, sector_count: int) -> bool {
    &&& windows_apart(nodes)
    &&& forall|k: int|
        0 <= k < nodes.len() ==> (#[trigger] nodes[k]).x_min <= nodes[k].x_max
            && nodes[k].sector_index < sector_count && nodes[k].tree_depth <= k
    &&& forall|i: int, j: int|
        0 <= i <= j < nodes.len() ==> (#[trigger] nodes[i]).tree_depth <= (
        #[trigger] nodes[j]).tree_depth
    &&& index < nodes.len() ==> {
        &&& forall|k: int|
            0 <= k < nodes.len() ==> (#[trigger] nodes[k]).tree_depth <= nodes[index].tree_depth
                + 1
        &&& forall|k: int, q: int|
            0 <= k < nodes.len() && index <= q < nodes.len() && nodes[k].tree_depth
                == nodes[index].tree_depth + 1 && nodes[q].tree_depth == nodes[index].tree_depth
                ==> apart(#[trigger] nodes[k], #[trigger] nodes[q])
    }
}

/// Drawing the sector of node `index` keeps [`tree_ok`] for the node
/// after it.
pub proof fn lemma_sector_keeps_tree(
    scene: Scene,
    stage: &Stage,
    sectors: Seq<Sector>,
    textures: Seq<Texture>,
    index: int,
)
    requires
        world_ok(sectors, textures),
        portals_apart(stage, sectors),
        0 <= index < scene.nodes.len(),
        index + 1 < usize::MAX,
        tree_ok(scene.nodes, index, sectors.len() as int),
    ensures
        tree_ok(
            scene_sector(scene, stage, sectors, textures, index).nodes,
            index + 1,
            sectors.len() as int,
        ),
        scene_sector(scene, stage, sectors, textures, index).nodes.len() >= scene.nodes.len(),
{
    let before = scene.nodes;
    let node = before[index];
    let depth = node.tree_depth as int;
    let count = sectors.len() as int;
    assert(node.tree_depth <= index);
    lemma_sector_nodes(scene, stage, sectors, textures, index);
    let after = scene_sector(scene, stage, sectors, textures, index).nodes;
    let len0 = before.len() as int;
    assert(sector_nodes_ok(before, after, index, count));
    assert forall|k: int| 0 <= k < after.len() implies (#[trigger] after[k]).x_min <= after[k].x_max
        && after[k].sector_index < count && after[k].tree_depth <= k by {
        if k < len0 {
            assert(same_window(after[k], before[k]));
            assert(before[k].x_min <= before[k].x_max);
        } else {
            assert(inside(after[k], node));
        }
    }
    assert forall|i: int, j: int| 0 <= i <= j < after.len() implies (#[trigger] after[i]).tree_depth
        <= (#[trigger] after[j]).tree_depth by {
        if j < len0 {
            assert(same_window(after[i], before[i]));
            assert(same_window(after[j], before[j]));
            assert(before[i].tree_depth <= before[j].tree_depth);
        } else if i < len0 {
            assert(same_window(after[i], before[i]));
            assert(before[i].tree_depth <= depth + 1);
            assert(after[j].tree_depth == depth + 1);
        } else {
            assert(after[i].tree_depth == depth + 1);
            assert(after[j].tree_depth == depth + 1);
        }
    }
    assert forall|i: int, j: int|
        0 <= i < j < after.len() && after[i].tree_depth == after[j].tree_depth implies apart(
        #[trigger] after[i],
        #[trigger] after[j],
    ) by {
        if j < len0 {
            assert(same_window(after[i], before[i]));
            assert(same_window(after[j], before[j]));
            assert(apart(before[i], before[j]));
        } else if i < len0 {
            assert(same_window(after[i], before[i]));
            assert(after[j].tree_depth == depth + 1);
            assert(inside(after[j], node));
            assert(apart(before[i], before[index]));
        } else {
            assert(apart(after[i], after[j]));
        }
    }
    if index + 1 < after.len() {
        let next = after[index + 1];
        assert(after[index].tree_depth <= next.tree_depth);
        assert(same_window(after[index], before[index]));
        assert forall|k: int| 0 <= k < after.len() implies (#[trigger] after[k]).tree_depth
            <= next.tree_depth + 1 by {
            if k < len0 {
                assert(same_window(after[k], before[k]));
                assert(before[k].tree_depth <= depth + 1);
            } else {
                assert(after[k].tree_depth == depth + 1);
            }
        }
        assert forall|k: int, q: int|
            0 <= k < after.len() && index + 1 <= q < after.len() && after[k].tree_depth
                == next.tree_depth + 1 && after[q].tree_depth == next.tree_depth implies apart(
            #[trigger] after[k],
            #[trigger] after[q],
        ) by {
            // No node lies two depths below the node that was drawn.
            assert(after[k].tree_depth <= depth + 1) by {
                if k < len0 {
                    assert(same_window(after[k], before[k]));
                    assert(before[k].tree_depth <= depth + 1);
                } else {
                    assert(after[k].tree_depth == depth + 1);
                }
            }
            assert(next.tree_depth == depth);
            assert(q < len0) by {
                if q >= len0 {
                    assert(after[q].tree_depth == depth + 1);
                }
            }
            assert(same_window(after[q], before[q]));
            if k < len0 {
                assert(same_window(after[k], before[k]));
                assert(apart(before[k], before[q]));
            } else {
                assert(inside(after[k], node));
                assert(apart(before[index], before[q]));
            }
        }
    }
}

/// The traversal from node `index` on leaves no two windows of one depth
/// with a column in common, if no two portal walls of one sector overlap
/// on the screen.
pub proof fn lemma_traversal_keeps_apart(
    scene: Scene,
    stage: &Stage,
    sectors: Seq<Sector>,
    textures: Seq<Texture>,
    index: int,
)
    requires
        world_ok(sectors, textures),
        portals_apart(stage, sectors),
        0 <= index <= scene.nodes.len(),
        tree_ok(scene.nodes, index, sectors.len() as int),
    ensures
        windows_apart(scene_traversed(scene, stage, sectors, textures, index).nodes),
    decreases usize::MAX - index,
{
    if index < scene.nodes.len() && index + 1 < usize::MAX {
        lemma_sector_keeps_tree(scene, stage, sectors, textures, index);
        lemma_traversal_keeps_apart(
            scene_sector(scene, stage, sectors, textures, index),
            stage,
            sectors,
            textures,
            index + 1,
        );
    }
}

/// In the tree that a frame leaves, no two windows of one depth share a
/// column, if no two portal walls of one sector overlap on the screen.
pub proof fn lemma_sibling_windows_apart(
    stage: &Stage,
    player_sector: usize,
    textures: Seq<Texture>,
    sectors: Seq<Sector>,
)
    requires
        world_ok(sectors, textures),
        player_sector < sectors.len(),
        portals_apart(stage, sectors),
    ensures
        windows_apart(frame_scene(stage, player_sector, textures, sectors).nodes),
{
    let start = frame_start(stage.width, stage.height, player_sector);
    assert(start.nodes.len() == 1);
    assert(tree_ok(start.nodes, 0, sectors.len() as int));
    lemma_traversal_keeps_apart(start, stage, sectors, textures, 0);
}

/// In the tree that [`Renderer::update`] leaves, no two windows of one
/// depth share a column, if no two portal walls of one sector overlap on
/// the screen.
pub proof fn lemma_frame_windows_apart(
    before: &Renderer,
    after: &Renderer,
    player: &Player,
    textures: Seq<Texture>,
    sectors: Seq<Sector>,
    sprites: Seq<Sprite>,
)
    requires
        update_post(before, after, player, textures, sectors, sprites),
        world_ok(sectors, textures),
        player.sector_index < sectors.len(),
        portals_apart(&frame_stage(&before.state, player.camera), sectors),
    ensures
        windows_apart(after.portal_tree.nodes@),
{
    lemma_sibling_windows_apart(
        &frame_stage(&before.state, player.camera),
        player.sector_index,
        textures,
        sectors,
    );
}

} // verus!
