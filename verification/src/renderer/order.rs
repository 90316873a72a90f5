//! The wall bounds of a sector lie inside its window, in order.

use vstd::prelude::*;
use crate::fixed::raw_div;
use crate::fixed::raw_mul;
use crate::fixed::saturate;
use crate::fixed::Fixed;
use crate::fixed::ONE_RAW;
use crate::maths::vec::Vec2f;
use crate::renderer::state::Lens;
use crate::renderer::laws::lemma_wall_bounds_in_order;
use crate::renderer::plane::PlaneLook;
use crate::renderer::portal::open_hi;
use crate::renderer::portal::open_lo;
use crate::renderer::portal::PortalNode;
use crate::renderer::portal::PortalTree;
use crate::renderer::scene::bounds_reset;
use crate::renderer::scene::rows_grown;
use crate::renderer::scene::rows_of;
use crate::renderer::scene::scene_of;
use crate::renderer::scene::scene_plane;
use crate::renderer::scene::scene_portal_wall;
use crate::renderer::scene::scene_sector;
use crate::renderer::scene::scene_solid_wall;
use crate::renderer::scene::scene_wall;
use crate::renderer::scene::scene_walls;
use crate::renderer::scene::Scene;
use crate::renderer::scene::Stage;
use crate::renderer::sector::sector_post;
use crate::renderer::sector::sector_pre;
use crate::renderer::sector::SectorRenderer;
use crate::renderer::state::RendererState;
use crate::renderer::wall::lemma_portal_columns_frame;
use crate::renderer::wall::lemma_prepared_portal_columns;
use crate::renderer::wall::lemma_prepared_wall_columns;
use crate::renderer::wall::lemma_wall_columns_frame;
use crate::renderer::wall::portal_columns;
use crate::renderer::wall::spec_prepare_portal_wall;
use crate::renderer::wall::spec_prepare_wall;
use crate::renderer::wall::wall_columns;
use crate::renderer::wall::window_ok;
use crate::renderer::wall::PortalCanvas;
use crate::renderer::wall::PortalHeights;
use crate::renderer::wall::PortalJob;
use crate::renderer::wall::PortalLook;
use crate::renderer::wall::WallCanvas;
use crate::renderer::wall::WallInterpolator;
use crate::renderer::wall::WallJob;
use crate::surface::Sector;
use crate::surface::Wall;
use crate::textures::Texture;

verus! {

/// The scene has the sizes of the stage, and node `index` is `node` but
/// for its depths: a window on the screen whose rows are in order.
pub open spec fn sector_scene_ok(scene: Scene, stage: &Stage, index: int, node: PortalNode) -> bool {
    let depth = node.tree_depth as int;
    &&& scene.pixels.len() == stage.width * stage.height
    &&& scene.wall_min.len() == stage.width
    &&& scene.wall_max.len() == stage.width
    &&& 0 <= index < scene.nodes.len()
    &&& scene.nodes[index].tree_depth == node.tree_depth
    &&& scene.nodes[index].sector_index == node.sector_index
    &&& scene.nodes[index].x_min == node.x_min
    &&& scene.nodes[index].x_max == node.x_max
    &&& node.x_min <= node.x_max <= stage.width
    &&& depth < scene.rows_min.len()
    &&& scene.rows_max.len() == scene.rows_min.len()
    &&& forall|d: int|
        0 <= d < scene.rows_min.len() ==> (#[trigger] scene.rows_min[d]).len() == stage.width
    &&& forall|d: int|
        0 <= d < scene.rows_max.len() ==> (#[trigger] scene.rows_max[d]).len() == stage.width
    &&& window_ok(
        scene.rows_min[depth],
        scene.rows_max[depth],
        node.x_min as int,
        node.x_max as int,
        stage.height as int,
    )
}

/// In every column of the window `node` the wall bounds lie inside the
/// rows `lo` and `hi`, the first no greater than the second.
pub open spec fn bounds_in_order(
    wall_min: Seq<u16>,
    wall_max: Seq<u16>,
    lo: Seq<u16>,
    hi: Seq<u16>,
    node: PortalNode,
) -> bool {
    forall|x: int|
        node.x_min <= x < node.x_max ==> lo[x] <= (#[trigger] wall_min[x]) && wall_min[x]
            <= wall_max[x] && wall_max[x] <= hi[x]
}

/// In each of the first `n` columns of a wall its top lies no lower on the
/// screen than its bottom.
pub open spec fn rows_upright(wall: WallInterpolator, n: int) -> bool {
    forall|k: int|
        0 <= k < n ==> (#[trigger] wall.stepped(k)).top_y.raw <= wall.stepped(k).bottom_y.raw
}

/// A solid wall that is in view through `window` has its top no lower
/// than its bottom in each of its columns.
pub open spec fn wall_upright(stage: &Stage, window: PortalNode, sector: Sector, wall: &Wall) -> bool {
    wall.portal is None ==> match spec_prepare_wall(
        &stage.lens,
        stage.frustum,
        window,
        sector.ceiling.height,
        sector.floor.height,
        wall,
    ) {
        None => true,
        Some(job) => rows_upright(job.interpolator, job.x_max - job.x_min),
    }
}

/// Every solid wall of `sector` that is in view through `window` has its
/// top no lower than its bottom in each of its columns.
pub open spec fn sector_upright(stage: &Stage, window: PortalNode, sector: Sector) -> bool {
    forall|i: int|
        0 <= i < sector.walls@.len() ==> wall_upright(
            stage,
            window,
            sector,
            &#[trigger] sector.walls@[i],
        )
}

/// A point before the eye is no lower on the screen at the height of a
/// ceiling than at the height of a floor below that ceiling: each end of
/// a wall has its top no lower than its bottom.
pub proof fn lemma_end_upright(lens: &Lens, point: Vec2f, ceiling: Fixed, floor: Fixed)
    requires
        floor.raw <= ceiling.raw,
        lens.focal_height.raw >= 0,
        point.y.raw > 0,
    ensures
        lens.spec_project_screen_space(point, ceiling).0.y.raw <= lens.spec_project_screen_space(
            point,
            floor,
        ).0.y.raw,
{
    let f = lens.focal_height.raw as int;
    let z = point.y.raw as int;
    let above = lens.camera.z.spec_minus(ceiling).raw as int;
    let below = lens.camera.z.spec_minus(floor).raw as int;
    assert(above <= below);
    assert(above * f <= below * f) by (nonlinear_arith)
        requires
            above <= below,
            f >= 0,
    ;
    vstd::arithmetic::div_mod::lemma_div_is_ordered(above * f, below * f, ONE_RAW as int);
    let scaled_above = raw_mul(above, f);
    let scaled_below = raw_mul(below, f);
    assert(scaled_above <= scaled_below);
    assert(scaled_above * (ONE_RAW as int) <= scaled_below * (ONE_RAW as int));
    vstd::arithmetic::div_mod::lemma_div_is_ordered(
        scaled_above * (ONE_RAW as int),
        scaled_below * (ONE_RAW as int),
        z,
    );
    assert(raw_div(scaled_above, z) <= raw_div(scaled_below, z));
    assert(saturate(raw_div(scaled_above, z) + lens.pitch_shear.raw) <= saturate(
        raw_div(scaled_below, z) + lens.pitch_shear.raw,
    ));
}

/// What is made of a solid wall depends on the columns of the window
/// alone.
pub proof fn lemma_job_by_columns(
    stage: &Stage,
    first: PortalNode,
    second: PortalNode,
    sector: Sector,
    wall: &Wall,
)
    requires
        first.x_min == second.x_min,
        first.x_max == second.x_max,
    ensures
        spec_prepare_wall(
            &stage.lens,
            stage.frustum,
            first,
            sector.ceiling.height,
            sector.floor.height,
            wall,
        ) == spec_prepare_wall(
            &stage.lens,
            stage.frustum,
            second,
            sector.ceiling.height,
            sector.floor.height,
            wall,
        ),
{
}

/// The entries from `from` on, `k` of them, of a row that was reset are
/// those of the source; the others are as they were.
pub proof fn lemma_bounds_reset(row: Seq<u16>, source: Seq<u16>, from: int, k: int)
    requires
        0 <= from,
        0 <= k,
        from + k <= row.len(),
    ensures
        bounds_reset(row, source, from, k).len() == row.len(),
        forall|x: int|
            from <= x < from + k ==> #[trigger] bounds_reset(row, source, from, k)[x] == source[x],
        forall|x: int|
            0 <= x < row.len() && !(from <= x < from + k) ==> #[trigger] bounds_reset(
                row,
                source,
                from,
                k,
            )[x] == row[x],
    decreases k,
{
    if k > 0 {
        lemma_bounds_reset(row, source, from, k - 1);
    }
}

/// A solid wall whose top is no lower than its bottom in each of its
/// columns leaves the wall bounds of the window in order.
pub proof fn lemma_solid_wall_keeps_order(
    scene: Scene,
    stage: &Stage,
    index: int,
    node: PortalNode,
    job: WallJob,
    texture: &Texture,
)
    requires
        sector_scene_ok(scene, stage, index, node),
        bounds_in_order(
            scene.wall_min,
            scene.wall_max,
            scene.rows_min[node.tree_depth as int],
            scene.rows_max[node.tree_depth as int],
            node,
        ),
        node.x_min <= job.x_min <= job.x_max <= node.x_max,
        rows_upright(job.interpolator, job.x_max - job.x_min),
    ensures
        ({
            let after = scene_solid_wall(scene, stage, index, job, texture);
            &&& sector_scene_ok(after, stage, index, node)
            &&& after.rows_min == scene.rows_min
            &&& after.rows_max == scene.rows_max
            &&& bounds_in_order(
                after.wall_min,
                after.wall_max,
                scene.rows_min[node.tree_depth as int],
                scene.rows_max[node.tree_depth as int],
                node,
            )
        }),
{
    let depth = node.tree_depth as int;
    let lo = scene.rows_min[depth];
    let hi = scene.rows_max[depth];
    let canvas = WallCanvas {
        pixels: scene.pixels,
        wall_min: scene.wall_min,
        wall_max: scene.wall_max,
    };
    let x_min = job.x_min as int;
    let n = job.x_max - job.x_min;
    let width = stage.width as int;
    let height = stage.height as int;
    assert(window_ok(lo, hi, x_min, x_min + n, height));
    lemma_wall_columns_frame(
        canvas,
        width,
        height,
        texture,
        job.lighting,
        lo,
        hi,
        job.interpolator,
        x_min,
        n,
    );
    let drawn = wall_columns(
        canvas,
        width,
        texture,
        job.lighting,
        lo,
        hi,
        job.interpolator,
        x_min,
        n,
    );
    let after = scene_solid_wall(scene, stage, index, job, texture);
    assert(after.wall_min == drawn.wall_min);
    assert(after.wall_max == drawn.wall_max);
    assert forall|x: int| node.x_min <= x < node.x_max implies lo[x] <= (
    #[trigger] after.wall_min[x]) && after.wall_min[x] <= after.wall_max[x] && after.wall_max[x]
        <= hi[x] by {
        if x_min <= x < x_min + n {
            let column = job.interpolator.stepped(x - x_min);
            assert(lo[x] <= hi[x]);
            assert(column.top_y.raw <= column.bottom_y.raw);
            lemma_wall_bounds_in_order(column, lo[x], hi[x]);
            assert(drawn.wall_min[x] == column.spec_top_row(lo[x], hi[x]));
            assert(drawn.wall_max[x] == column.spec_bottom_row(lo[x], hi[x]));
        } else {
            assert(drawn.wall_min[x] == canvas.wall_min[x]);
            assert(drawn.wall_max[x] == canvas.wall_max[x]);
            assert(lo[x] <= scene.wall_min[x]);
        }
    }
}

/// A portal wall leaves the wall bounds of the window in order, and the
/// rows of the window as they were.
pub proof fn lemma_portal_wall_keeps_order(
    scene: Scene,
    stage: &Stage,
    index: int,
    node: PortalNode,
    job: PortalJob,
    look: PortalLook,
    child_sector: usize,
)
    requires
        sector_scene_ok(scene, stage, index, node),
        bounds_in_order(
            scene.wall_min,
            scene.wall_max,
            scene.rows_min[node.tree_depth as int],
            scene.rows_max[node.tree_depth as int],
            node,
        ),
        node.x_min <= job.x_min <= job.x_max <= node.x_max,
    ensures
        ({
            let after = scene_portal_wall(scene, stage, index, job, look, child_sector);
            &&& sector_scene_ok(after, stage, index, node)
            &&& after.rows_min[node.tree_depth as int] == scene.rows_min[node.tree_depth as int]
            &&& after.rows_max[node.tree_depth as int] == scene.rows_max[node.tree_depth as int]
            &&& bounds_in_order(
                after.wall_min,
                after.wall_max,
                scene.rows_min[node.tree_depth as int],
                scene.rows_max[node.tree_depth as int],
                node,
            )
        }),
{
    let depth = node.tree_depth as int;
    let width = stage.width as int;
    let height = stage.height as int;
    let lo = scene.rows_min[depth];
    let hi = scene.rows_max[depth];
    let rows_min = rows_grown(scene.rows_min, depth + 1, open_lo(width));
    let rows_max = rows_grown(scene.rows_max, depth + 1, open_hi(width, height));
    assert(rows_min[depth] == lo);
    assert(rows_max[depth] == hi);
    assert(rows_min.len() == rows_max.len());
    assert(depth + 1 < rows_min.len());
    assert(rows_min[depth + 1].len() == width);
    assert(rows_max[depth + 1].len() == width);
    let canvas = PortalCanvas {
        pixels: scene.pixels,
        wall_min: scene.wall_min,
        wall_max: scene.wall_max,
        child_lo: rows_min[depth + 1],
        child_hi: rows_max[depth + 1],
    };
    let x_min = job.x_min as int;
    let n = job.x_max - job.x_min;
    assert(window_ok(lo, hi, x_min, x_min + n, height));
    lemma_portal_columns_frame(canvas, width, height, look, lo, hi, job.upper, job.lower, x_min, n);
    let drawn = portal_columns(canvas, width, look, lo, hi, job.upper, job.lower, x_min, n);
    let after = scene_portal_wall(scene, stage, index, job, look, child_sector);
    assert(after.wall_min == drawn.wall_min);
    assert(after.wall_max == drawn.wall_max);
    assert(after.rows_min == rows_min.update(depth + 1, drawn.child_lo));
    assert(after.rows_max == rows_max.update(depth + 1, drawn.child_hi));
    assert forall|d: int| 0 <= d < after.rows_min.len() implies (#[trigger] after.rows_min[d]).len()
        == stage.width by {
        if d != depth + 1 && d < scene.rows_min.len() {
            assert(after.rows_min[d] == scene.rows_min[d]);
        }
    }
    assert forall|d: int| 0 <= d < after.rows_max.len() implies (#[trigger] after.rows_max[d]).len()
        == stage.width by {
        if d != depth + 1 && d < scene.rows_max.len() {
            assert(after.rows_max[d] == scene.rows_max[d]);
        }
    }
    assert forall|x: int| node.x_min <= x < node.x_max implies lo[x] <= (
    #[trigger] after.wall_min[x]) && after.wall_min[x] <= after.wall_max[x] && after.wall_max[x]
        <= hi[x] by {
        if x_min <= x < x_min + n {
            assert(lo[x] <= drawn.wall_min[x]);
        } else {
            assert(drawn.wall_min[x] == canvas.wall_min[x]);
            assert(drawn.wall_max[x] == canvas.wall_max[x]);
            assert(lo[x] <= scene.wall_min[x]);
        }
    }
}

/// One wall of the sector of node `index` leaves the wall bounds of the
/// window in order, if it is a portal wall or has its top no lower than
/// its bottom.
pub proof fn lemma_wall_keeps_order(
    scene: Scene,
    stage: &Stage,
    sectors: Seq<Sector>,
    textures: Seq<Texture>,
    index: int,
    node: PortalNode,
    wall: &Wall,
)
    requires
        sector_scene_ok(scene, stage, index, node),
        bounds_in_order(
            scene.wall_min,
            scene.wall_max,
            scene.rows_min[node.tree_depth as int],
            scene.rows_max[node.tree_depth as int],
            node,
        ),
        wall_upright(stage, node, sectors[node.sector_index as int], wall),
    ensures
        ({
            let after = scene_wall(scene, stage, sectors, textures, index, wall);
            &&& sector_scene_ok(after, stage, index, node)
            &&& after.rows_min[node.tree_depth as int] == scene.rows_min[node.tree_depth as int]
            &&& after.rows_max[node.tree_depth as int] == scene.rows_max[node.tree_depth as int]
            &&& bounds_in_order(
                after.wall_min,
                after.wall_max,
                scene.rows_min[node.tree_depth as int],
                scene.rows_max[node.tree_depth as int],
                node,
            )
        }),
{
    let window = scene.nodes[index];
    let sector = sectors[window.sector_index as int];
    match wall.portal {
        Some(portal) => {
            let next = sectors[portal.sector as int];
            let heights = PortalHeights {
                ceiling: sector.ceiling.height,
                floor: sector.floor.height,
                next_ceiling: next.ceiling.height,
                next_floor: next.floor.height,
            };
            let made = spec_prepare_portal_wall(&stage.lens, stage.frustum, window, heights, wall);
            if made is Some {
                let job = made.unwrap();
                lemma_prepared_portal_columns(&stage.lens, stage.frustum, window, heights, wall);
                lemma_portal_wall_keeps_order(
                    scene,
                    stage,
                    index,
                    node,
                    job,
                    PortalLook {
                        upper_texture: &textures[portal.upper_texture.index as int],
                        lower_texture: &textures[portal.lower_texture.index as int],
                        lighting: job.lighting,
                    },
                    next.id,
                );
            }
        },
        None => {
            let made = spec_prepare_wall(
                &stage.lens,
                stage.frustum,
                window,
                sector.ceiling.height,
                sector.floor.height,
                wall,
            );
            if made is Some {
                let job = made.unwrap();
                lemma_job_by_columns(stage, window, node, sector, wall);
                lemma_prepared_wall_columns(
                    &stage.lens,
                    stage.frustum,
                    window,
                    sector.ceiling.height,
                    sector.floor.height,
                    wall,
                );
                lemma_solid_wall_keeps_order(
                    scene,
                    stage,
                    index,
                    node,
                    job,
                    &textures[wall.texture_data.index as int],
                );
            }
        },
    }
}

/// The first `n` walls of the sector of node `index` leave the wall bounds
/// of the window in order, if each solid wall among them has its top no
/// lower than its bottom.
pub proof fn lemma_walls_keep_order(
    scene: Scene,
    stage: &Stage,
    sectors: Seq<Sector>,
    textures: Seq<Texture>,
    index: int,
    node: PortalNode,
    walls: Seq<Wall>,
    n: int,
)
    requires
        sector_scene_ok(scene, stage, index, node),
        bounds_in_order(
            scene.wall_min,
            scene.wall_max,
            scene.rows_min[node.tree_depth as int],
            scene.rows_max[node.tree_depth as int],
            node,
        ),
        0 <= n <= walls.len(),
        forall|i: int|
            0 <= i < n ==> wall_upright(
                stage,
                node,
                sectors[node.sector_index as int],
                &#[trigger] walls[i],
            ),
    ensures
        ({
            let after = scene_walls(scene, stage, sectors, textures, index, walls, n);
            &&& sector_scene_ok(after, stage, index, node)
            &&& after.rows_min[node.tree_depth as int] == scene.rows_min[node.tree_depth as int]
            &&& after.rows_max[node.tree_depth as int] == scene.rows_max[node.tree_depth as int]
            &&& bounds_in_order(
                after.wall_min,
                after.wall_max,
                scene.rows_min[node.tree_depth as int],
                scene.rows_max[node.tree_depth as int],
                node,
            )
        }),
    decreases n,
{
    if n > 0 {
        lemma_walls_keep_order(scene, stage, sectors, textures, index, node, walls, n - 1);
        let before = scene_walls(scene, stage, sectors, textures, index, walls, n - 1);
        assert(wall_upright(stage, node, sectors[node.sector_index as int], &walls[n - 1]));
        lemma_wall_keeps_order(before, stage, sectors, textures, index, node, &walls[n - 1]);
    }
}

/// After the sector of node `index` has been drawn, in every column of the
/// window of that node the wall bounds lie inside the rows of the window,
/// the first no greater than the second, if every solid wall of the
/// sector that is in view has its top no lower than its bottom in each of
/// its columns.
pub proof fn lemma_sector_bounds_in_order(
    scene: Scene,
    stage: &Stage,
    sectors: Seq<Sector>,
    textures: Seq<Texture>,
    index: int,
)
    requires
        0 <= index < scene.nodes.len(),
        sector_scene_ok(scene, stage, index, scene.nodes[index]),
        sector_upright(stage, scene.nodes[index], sectors[scene.nodes[index].sector_index as int]),
    ensures
        ({
            let node = scene.nodes[index];
            let after = scene_sector(scene, stage, sectors, textures, index);
            &&& node.tree_depth < after.rows_min.len()
            &&& node.tree_depth < after.rows_max.len()
            &&& after.rows_min[node.tree_depth as int] == scene.rows_min[node.tree_depth as int]
            &&& after.rows_max[node.tree_depth as int] == scene.rows_max[node.tree_depth as int]
            &&& bounds_in_order(
                after.wall_min,
                after.wall_max,
                after.rows_min[node.tree_depth as int],
                after.rows_max[node.tree_depth as int],
                node,
            )
        }),
{
    let node = scene.nodes[index];
    let depth = node.tree_depth as int;
    let sector = sectors[node.sector_index as int];
    let lo = scene.rows_min[depth];
    let hi = scene.rows_max[depth];
    let from = node.x_min as int;
    let k = node.x_max - node.x_min;
    lemma_bounds_reset(scene.wall_min, lo, from, k);
    lemma_bounds_reset(scene.wall_max, hi, from, k);
    let cleared = Scene {
        wall_min: bounds_reset(scene.wall_min, lo, from, k),
        wall_max: bounds_reset(scene.wall_max, hi, from, k),
        ..scene
    };
    assert(sector_scene_ok(cleared, stage, index, node));
    assert forall|x: int| node.x_min <= x < node.x_max implies lo[x] <= (
    #[trigger] cleared.wall_min[x]) && cleared.wall_min[x] <= cleared.wall_max[x]
        && cleared.wall_max[x] <= hi[x] by {
        assert(lo[x] <= hi[x]);
        assert(cleared.wall_min[x] == lo[x]);
        assert(cleared.wall_max[x] == hi[x]);
    }
    lemma_walls_keep_order(
        cleared,
        stage,
        sectors,
        textures,
        index,
        node,
        sector.walls@,
        sector.walls@.len() as int,
    );
    let walled = scene_walls(
        cleared,
        stage,
        sectors,
        textures,
        index,
        sector.walls@,
        sector.walls@.len() as int,
    );
    let ceiled = scene_plane(
        walled,
        stage,
        index,
        &PlaneLook {
            lens: stage.lens,
            height_offset: stage.lens.camera.z.spec_minus(sector.ceiling.height),
            texture: &textures[sector.ceiling.texture_data.index as int],
            texture_offset: sector.ceiling.texture_data.offset,
            texture_scale_rotate: sector.ceiling.texture_data.scale_rotate,
        },
        walled.rows_min[depth],
        walled.wall_min,
    );
    let after = scene_sector(scene, stage, sectors, textures, index);
    assert(ceiled.wall_min == walled.wall_min);
    assert(ceiled.wall_max == walled.wall_max);
    assert(after.wall_min == walled.wall_min);
    assert(after.wall_max == walled.wall_max);
    assert(after.rows_min == walled.rows_min);
    assert(after.rows_max == walled.rows_max);
}

/// After [`SectorRenderer::draw_sector`] has drawn the sector of node
/// `index`, in every column of the window of that node the wall bounds
/// lie inside the rows of the window, the first no greater than the
/// second, if every solid wall of the sector that is in view has its top
/// no lower than its bottom in each of its columns.
pub proof fn lemma_drawn_sector_bounds_in_order(
    before_state: &RendererState,
    before: &SectorRenderer,
    before_tree: &PortalTree,
    after_state: &RendererState,
    after: &SectorRenderer,
    after_tree: &PortalTree,
    sectors: Seq<Sector>,
    textures: Seq<Texture>,
    index: int,
    stage: &Stage,
)
    requires
        sector_pre(before_state, before, before_tree, sectors, textures, index),
        sector_post(
            before_state,
            before,
            before_tree,
            after_state,
            after,
            after_tree,
            sectors,
            textures,
            index,
        ),
        stage.of(before_state),
        stage.ratios == before.plane_renderer.focal_height_ratios@,
        sector_upright(
            stage,
            before_tree.nodes@[index],
            sectors[before_tree.nodes@[index].sector_index as int],
        ),
    ensures
        ({
            let node = before_tree.nodes@[index];
            let depth = node.tree_depth as int;
            &&& depth < after_tree.portal_bounds_min@.len()
            &&& depth < after_tree.portal_bounds_max@.len()
            &&& bounds_in_order(
                after.wall_renderer.wall_bounds_min@,
                after.wall_renderer.wall_bounds_max@,
                after_tree.portal_bounds_min@[depth]@,
                after_tree.portal_bounds_max@[depth]@,
                node,
            )
        }),
{
    let node = before_tree.nodes@[index];
    let depth = node.tree_depth as int;
    let scene = scene_of(
        &before_state.framebuffer,
        &before.wall_renderer,
        before.plane_renderer.span_start@,
        before_tree,
    );
    assert(before_tree.node_ok(node));
    assert forall|d: int| 0 <= d < scene.rows_min.len() implies (#[trigger] scene.rows_min[d]).len()
        == stage.width by {
        assert(before_tree.portal_bounds_min@[d]@.len() == stage.width);
    }
    assert forall|d: int| 0 <= d < scene.rows_max.len() implies (#[trigger] scene.rows_max[d]).len()
        == stage.width by {
        assert(before_tree.portal_bounds_max@[d]@.len() == stage.width);
    }
    assert forall|x: int| node.x_min <= x < node.x_max implies (
    #[trigger] scene.rows_min[depth][x]) <= scene.rows_max[depth][x] && scene.rows_max[depth][x]
        <= stage.height by {
        assert(before_tree.lo(depth, x) <= before_tree.hi(depth, x));
    }
    assert(sector_scene_ok(scene, stage, index, node));
    lemma_sector_bounds_in_order(scene, stage, sectors, textures, index);
    let drawn = scene_sector(scene, stage, sectors, textures, index);
    assert(drawn == scene_of(
        &after_state.framebuffer,
        &after.wall_renderer,
        after.plane_renderer.span_start@,
        after_tree,
    ));
    assert(drawn.rows_min == rows_of(after_tree.portal_bounds_min@));
    assert(drawn.rows_max == rows_of(after_tree.portal_bounds_max@));
    assert(drawn.rows_min[depth] == after_tree.portal_bounds_min@[depth]@);
    assert(drawn.rows_max[depth] == after_tree.portal_bounds_max@[depth]@);
}

} // verus!
