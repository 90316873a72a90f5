//! What a frame is, stated over plain sequences: the pixels, the wall
//! bounds, the span starts and the portal tree, and what each step of the
//! traversal makes of them.

use vstd::prelude::*;
use crate::colour::BGRA8;
use crate::fixed::Fixed;
use crate::maths::polygon::Polygon;
use crate::renderer::framebuffer::Framebuffer;
use crate::renderer::plane::plane_drawn;
use crate::renderer::plane::PlaneLook;
use crate::renderer::plane::PlaneRenderer;
use crate::renderer::portal::PortalNode;
use crate::renderer::portal::PortalTree;
use crate::renderer::state::Lens;
use crate::renderer::state::RendererState;
use crate::renderer::wall::nodes_after_portal;
use crate::renderer::portal::open_hi;
use crate::renderer::portal::open_lo;
use crate::renderer::wall::portal_columns;
use crate::renderer::portal::raised;
use crate::renderer::wall::spec_prepare_portal_wall;
use crate::renderer::wall::spec_prepare_wall;
use crate::renderer::wall::wall_columns;
use crate::renderer::wall::PortalCanvas;
use crate::renderer::wall::PortalHeights;
use crate::renderer::wall::PortalJob;
use crate::renderer::wall::PortalLook;
use crate::renderer::wall::WallCanvas;
use crate::renderer::wall::WallJob;
use crate::renderer::wall::WallRenderer;
use crate::surface::Sector;
use crate::surface::Wall;
use crate::textures::Texture;

verus! {

/// Everything that drawing a frame changes.
pub struct Scene {
    pub pixels: Seq<BGRA8>,
    pub wall_min: Seq<u16>,
    pub wall_max: Seq<u16>,
    pub span_start: Seq<u16>,
    pub nodes: Seq<PortalNode>,
    pub rows_min: Seq<Seq<u16>>,
    pub rows_max: Seq<Seq<u16>>,
}

/// Everything that stays as it is while a frame is drawn.
pub struct Stage<'a> {
    pub width: usize,
    pub height: usize,
    pub lens: Lens,
    pub frustum: &'a Polygon,
    /// The focal height ratio of every row.
    pub ratios: Seq<Fixed>,
}

impl<'a> Stage<'a> {
    /// The stage is that of `state`: its screen size, lens and frustum.
    pub open spec fn of(&self, state: &RendererState) -> bool {
        &&& self.width == state.framebuffer.width
        &&& self.height == state.framebuffer.height
        &&& self.lens == state.spec_lens()
        &&& *self.frustum == state.frustum
    }
}

/// The rows of a portal tree as sequences.
pub open spec fn rows_of(rows: Seq<Vec<u16>>) -> Seq<Seq<u16>> {
    Seq::new(rows.len(), |d: int| rows[d]@)
}

/// The scene that the framebuffer, the wall bounds, the span starts and the
/// tree hold.
pub open spec fn scene_of(
    framebuffer: &Framebuffer,
    walls: &WallRenderer,
    span_start: Seq<u16>,
    portals: &PortalTree,
) -> Scene {
    Scene {
        pixels: framebuffer.pixels@,
        wall_min: walls.wall_bounds_min@,
        wall_max: walls.wall_bounds_max@,
        span_start,
        nodes: portals.nodes@,
        rows_min: rows_of(portals.portal_bounds_min@),
        rows_max: rows_of(portals.portal_bounds_max@),
    }
}

/// No node lies deeper in the tree than its place in the list.
pub open spec fn depths_ok(nodes: Seq<PortalNode>) -> bool {
    forall|i: int| 0 <= i < nodes.len() ==> (#[trigger] nodes[i]).tree_depth <= i
}

/// Every node names a sector that exists.
pub open spec fn nodes_in_world(nodes: Seq<PortalNode>, sector_count: int) -> bool {
    forall|i: int| 0 <= i < nodes.len() ==> (#[trigger] nodes[i]).sector_index < sector_count
}

/// The scene `after` has come from the scene `before` by drawing walls seen
/// through node `index`: that node is what it was but for its greatest
/// depth; the nodes before it are as they were and no node is lost; the
/// rows of every depth but the one below that of the node are as they
/// were.
pub open spec fn wall_step_ok(before: Scene, after: Scene, index: int) -> bool {
    let node = before.nodes[index];
    &&& after.nodes.len() >= before.nodes.len()
    &&& after.nodes[index].tree_depth == node.tree_depth
    &&& after.nodes[index].sector_index == node.sector_index
    &&& after.nodes[index].x_min == node.x_min
    &&& after.nodes[index].x_max == node.x_max
    &&& forall|i: int| 0 <= i < before.nodes.len() && i != index ==> #[trigger] after.nodes[i] == before.nodes[i]
    &&& after.rows_min.len() >= before.rows_min.len()
    &&& after.rows_max.len() >= before.rows_max.len()
    &&& forall|d: int|
        0 <= d < before.rows_min.len() && d != node.tree_depth + 1 ==> #[trigger] after.rows_min[d]
            == before.rows_min[d]
    &&& forall|d: int|
        0 <= d < before.rows_max.len() && d != node.tree_depth + 1 ==> #[trigger] after.rows_max[d]
            == before.rows_max[d]
    &&& after.span_start == before.span_start
}

/// The scene after a solid wall seen through node `index` has been drawn.
pub open spec fn scene_solid_wall(
    scene: Scene,
    stage: &Stage,
    index: int,
    job: WallJob,
    texture: &Texture,
) -> Scene {
    let node = scene.nodes[index];
    let canvas = wall_columns(
        WallCanvas { pixels: scene.pixels, wall_min: scene.wall_min, wall_max: scene.wall_max },
        stage.width as int,
        texture,
        job.lighting,
        scene.rows_min[node.tree_depth as int],
        scene.rows_max[node.tree_depth as int],
        job.interpolator,
        job.x_min as int,
        job.x_max - job.x_min,
    );
    Scene {
        pixels: canvas.pixels,
        wall_min: canvas.wall_min,
        wall_max: canvas.wall_max,
        nodes: scene.nodes.update(index, raised(node, job.max_depth)),
        ..scene
    }
}

/// The rows with one more row appended if depth `depth` has none.
pub open spec fn rows_grown(rows: Seq<Seq<u16>>, depth: int, fresh: Seq<u16>) -> Seq<Seq<u16>> {
    if depth < rows.len() {
        rows
    } else {
        rows.push(fresh)
    }
}

/// The scene after a portal wall seen through node `index` has been drawn.
pub open spec fn scene_portal_wall(
    scene: Scene,
    stage: &Stage,
    index: int,
    job: PortalJob,
    look: PortalLook,
    child_sector: usize,
) -> Scene {
    let node = scene.nodes[index];
    let depth = node.tree_depth as int;
    let rows_min = rows_grown(scene.rows_min, depth + 1, open_lo(stage.width as int));
    let rows_max = rows_grown(
        scene.rows_max,
        depth + 1,
        open_hi(stage.width as int, stage.height as int),
    );
    let canvas = portal_columns(
        PortalCanvas {
            pixels: scene.pixels,
            wall_min: scene.wall_min,
            wall_max: scene.wall_max,
            child_lo: rows_min[depth + 1],
            child_hi: rows_max[depth + 1],
        },
        stage.width as int,
        look,
        rows_min[depth],
        rows_max[depth],
        job.upper,
        job.lower,
        job.x_min as int,
        job.x_max - job.x_min,
    );
    Scene {
        pixels: canvas.pixels,
        wall_min: canvas.wall_min,
        wall_max: canvas.wall_max,
        span_start: scene.span_start,
        nodes: nodes_after_portal(scene.nodes, index, child_sector, job),
        rows_min: rows_min.update(depth + 1, canvas.child_lo),
        rows_max: rows_max.update(depth + 1, canvas.child_hi),
    }
}

/// The rows of a tree after a portal wall seen at depth `depth` has been
/// drawn are the rows before, grown to depth `depth + 1` and with the row
/// of that depth replaced.
pub proof fn lemma_rows_after_portal(
    before: Seq<Vec<u16>>,
    after: Seq<Vec<u16>>,
    depth: int,
    fresh: Seq<u16>,
)
    requires
        0 <= depth < before.len(),
        after.len() == if depth + 1 < before.len() {
            before.len() as int
        } else {
            depth + 2
        },
        forall|d: int| 0 <= d < before.len() && d != depth + 1 ==> #[trigger] after[d] == before[d],
    ensures
        rows_of(after) == rows_grown(rows_of(before), depth + 1, fresh).update(
            depth + 1,
            after[depth + 1]@,
        ),
        rows_grown(rows_of(before), depth + 1, fresh)[depth] == before[depth]@,
        rows_grown(rows_of(before), depth + 1, fresh)[depth + 1] == if depth + 1 < before.len() {
            before[depth + 1]@
        } else {
            fresh
        },
{
    assert(rows_of(after) =~~= rows_grown(rows_of(before), depth + 1, fresh).update(
        depth + 1,
        after[depth + 1]@,
    ));
}

/// The rows of a tree whose rows are as they were are as they were.
pub proof fn lemma_rows_same(before: Seq<Vec<u16>>, after: Seq<Vec<u16>>)
    requires
        after.len() == before.len(),
        forall|d: int| 0 <= d < before.len() ==> #[trigger] after[d] == before[d],
    ensures
        rows_of(after) == rows_of(before),
{
    assert(rows_of(after) =~~= rows_of(before));
}

/// The scene after one wall of the sector of node `index` has been drawn:
/// a wall with a portal as a portal wall into its neighbour, any other as
/// a solid wall; a wall that is out of view leaves the scene as it is.
pub open spec fn scene_wall(
    scene: Scene,
    stage: &Stage,
    sectors: Seq<Sector>,
    textures: Seq<Texture>,
    index: int,
    wall: &Wall,
) -> Scene {
    let node = scene.nodes[index];
    let sector = sectors[node.sector_index as int];
    match wall.portal {
        Some(portal) => {
            let next = sectors[portal.sector as int];
            match spec_prepare_portal_wall(
                &stage.lens,
                stage.frustum,
                node,
                PortalHeights {
                    ceiling: sector.ceiling.height,
                    floor: sector.floor.height,
                    next_ceiling: next.ceiling.height,
                    next_floor: next.floor.height,
                },
                wall,
            ) {
                None => scene,
                Some(job) => scene_portal_wall(
                    scene,
                    stage,
                    index,
                    job,
                    PortalLook {
                        upper_texture: &textures[portal.upper_texture.index as int],
                        lower_texture: &textures[portal.lower_texture.index as int],
                        lighting: job.lighting,
                    },
                    next.id,
                ),
            }
        },
        None => match spec_prepare_wall(
            &stage.lens,
            stage.frustum,
            node,
            sector.ceiling.height,
            sector.floor.height,
            wall,
        ) {
            None => scene,
            Some(job) => scene_solid_wall(
                scene,
                stage,
                index,
                job,
                &textures[wall.texture_data.index as int],
            ),
        },
    }
}

/// The scene after the first `n` walls of the sector of node `index` have
/// been drawn.
pub open spec fn scene_walls(
    scene: Scene,
    stage: &Stage,
    sectors: Seq<Sector>,
    textures: Seq<Texture>,
    index: int,
    walls: Seq<Wall>,
    n: int,
) -> Scene
    decreases n,
{
    if n <= 0 {
        scene
    } else {
        scene_wall(
            scene_walls(scene, stage, sectors, textures, index, walls, n - 1),
            stage,
            sectors,
            textures,
            index,
            &walls[n - 1],
        )
    }
}

/// The row with the `k` entries from column `from` on taken from `source`.
pub open spec fn bounds_reset(row: Seq<u16>, source: Seq<u16>, from: int, k: int) -> Seq<u16>
    decreases k,
{
    if k <= 0 {
        row
    } else {
        bounds_reset(row, source, from, k - 1).update(from + k - 1, source[from + k - 1])
    }
}

/// The scene after a plane of the sector of node `index` has been drawn
/// between the bounds `lo` and `hi`.
pub open spec fn scene_plane(
    scene: Scene,
    stage: &Stage,
    index: int,
    look: &PlaneLook,
    lo: Seq<u16>,
    hi: Seq<u16>,
) -> Scene {
    let node = scene.nodes[index];
    let drawn = plane_drawn(
        scene.pixels,
        scene.span_start,
        stage.width as int,
        look,
        stage.ratios,
        lo,
        hi,
        node.x_min,
        node.x_max,
    );
    Scene { pixels: drawn.pixels, span_start: drawn.span_start, ..scene }
}

/// The scene after the sector of node `index` has been drawn through the
/// window of that node: the wall bounds of the columns of the window are
/// set to the window itself; the walls are drawn in order; the ceiling is
/// drawn between the top of the window and the top of the walls, and the
/// floor between the bottom of the walls and the bottom of the window.
pub open spec fn scene_sector(
    scene: Scene,
    stage: &Stage,
    sectors: Seq<Sector>,
    textures: Seq<Texture>,
    index: int,
) -> Scene {
    let node = scene.nodes[index];
    let depth = node.tree_depth as int;
    let sector = sectors[node.sector_index as int];
    let cleared = Scene {
        wall_min: bounds_reset(
            scene.wall_min,
            scene.rows_min[depth],
            node.x_min as int,
            node.x_max - node.x_min,
        ),
        wall_max: bounds_reset(
            scene.wall_max,
            scene.rows_max[depth],
            node.x_min as int,
            node.x_max - node.x_min,
        ),
        ..scene
    };
    let walled = scene_walls(
        cleared,
        stage,
        sectors,
        textures,
        index,
        sector.walls@,
        sector.walls@.len() as int,
    );
    let ceiled = scene_plane(
        walled,
        stage,
        index,
        &PlaneLook {
            lens: stage.lens,
            height_offset: stage.lens.camera.z.spec_minus(sector.ceiling.height),
            texture: &textures[sector.ceiling.texture_data.index as int],
            texture_offset: sector.ceiling.texture_data.offset,
            texture_scale_rotate: sector.ceiling.texture_data.scale_rotate,
        },
        walled.rows_min[depth],
        walled.wall_min,
    );
    scene_plane(
        ceiled,
        stage,
        index,
        &PlaneLook {
            lens: stage.lens,
            height_offset: stage.lens.camera.z.spec_minus(sector.floor.height),
            texture: &textures[sector.floor.texture_data.index as int],
            texture_offset: sector.floor.texture_data.offset,
            texture_scale_rotate: sector.floor.texture_data.scale_rotate,
        },
        ceiled.wall_max,
        ceiled.rows_max[depth],
    )
}

/// The scene after the nodes from `index` on have been drawn, each in its
/// turn, with the nodes that drawing appends. A node is drawn as long as
/// the machine can count the node after it.
pub open spec fn scene_traversed(
    scene: Scene,
    stage: &Stage,
    sectors: Seq<Sector>,
    textures: Seq<Texture>,
    index: int,
) -> Scene
    decreases usize::MAX - index,
{
    if 0 <= index < scene.nodes.len() && index + 1 < usize::MAX {
        scene_traversed(
            scene_sector(scene, stage, sectors, textures, index),
            stage,
            sectors,
            textures,
            index + 1,
        )
    } else {
        scene
    }
}

} // verus!
