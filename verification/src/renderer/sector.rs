//! Sectors: their walls, then their ceiling and floor.

use vstd::prelude::*;
use crate::renderer::plane::rows_on_screen;
use crate::renderer::plane::PlaneLook;
use crate::renderer::plane::PlaneRenderer;
use crate::renderer::portal::PortalNode;
use crate::renderer::portal::PortalTree;
use crate::renderer::scene::bounds_reset;
use crate::renderer::scene::depths_ok;
use crate::renderer::scene::lemma_rows_after_portal;
use crate::renderer::scene::lemma_rows_same;
use crate::renderer::scene::nodes_in_world;
use crate::renderer::scene::rows_of;
use crate::renderer::scene::scene_of;
use crate::renderer::scene::scene_plane;
use crate::renderer::scene::scene_portal_wall;
use crate::renderer::scene::scene_sector;
use crate::renderer::scene::scene_solid_wall;
use crate::renderer::scene::scene_wall;
use crate::renderer::scene::scene_walls;
use crate::renderer::scene::Scene;
use crate::renderer::scene::Stage;
use crate::renderer::state::RendererState;
use crate::renderer::wall::lemma_portal_columns_frame;
use crate::renderer::wall::lemma_wall_columns_frame;
use crate::renderer::portal::open_hi;
use crate::renderer::portal::open_lo;
use crate::renderer::wall::spec_prepare_portal_wall;
use crate::renderer::wall::spec_prepare_wall;
use crate::renderer::wall::walls_within;
use crate::renderer::wall::window_ok;
use crate::renderer::wall::PortalCanvas;
use crate::renderer::wall::PortalHeights;
use crate::renderer::wall::PortalLook;
use crate::renderer::wall::WallCanvas;
use crate::renderer::wall::WallRenderer;
use crate::surface::wall_ok;
use crate::surface::world_ok;
use crate::surface::Sector;
use crate::surface::Wall;
use crate::textures::Texture;

verus! {

/// What holds of the tree and the wall bounds while the walls of the
/// sector of node `index` are drawn: the node is in the tree and keeps its
/// window; the wall bounds of the columns of the window lie inside the
/// window.
pub open spec fn sector_step_ok(
    portals: &PortalTree,
    walls: &WallRenderer,
    index: int,
    node: PortalNode,
) -> bool {
    &&& 0 <= index < portals.nodes@.len()
    &&& portals.nodes@[index].tree_depth == node.tree_depth
    &&& portals.nodes@[index].sector_index == node.sector_index
    &&& portals.nodes@[index].x_min == node.x_min
    &&& portals.nodes@[index].x_max == node.x_max
    &&& walls_within(
        walls.wall_bounds_min@,
        walls.wall_bounds_max@,
        portals.portal_bounds_min@[node.tree_depth as int]@,
        portals.portal_bounds_max@[node.tree_depth as int]@,
        node.x_min as int,
        node.x_max as int,
    )
}

/// What drawing one wall through the window of node `index` leaves true
/// and makes of the scene.
pub open spec fn render_post(
    before_state: &RendererState,
    before_walls: &WallRenderer,
    before_tree: &PortalTree,
    after_state: &RendererState,
    after_walls: &WallRenderer,
    after_tree: &PortalTree,
    sectors: Seq<Sector>,
    textures: Seq<Texture>,
    index: int,
    wall: &Wall,
) -> bool {
    let node = before_tree.nodes@[index];
    &&& after_state.framebuffer.wf()
    &&& after_state.same_view(before_state)
    &&& after_tree.wf()
    &&& after_tree.screen_width == before_tree.screen_width
    &&& after_tree.screen_height == before_tree.screen_height
    &&& after_tree.nodes@.len() >= before_tree.nodes@.len()
    &&& depths_ok(before_tree.nodes@) ==> depths_ok(after_tree.nodes@)
    &&& nodes_in_world(after_tree.nodes@, sectors.len() as int)
    &&& after_walls.wf(before_state.framebuffer.width as int)
    &&& after_tree.layers() >= before_tree.layers()
    &&& after_tree.portal_bounds_min@[node.tree_depth as int]
        == before_tree.portal_bounds_min@[node.tree_depth as int]
    &&& after_tree.portal_bounds_max@[node.tree_depth as int]
        == before_tree.portal_bounds_max@[node.tree_depth as int]
    &&& sector_step_ok(after_tree, after_walls, index, node)
    &&& forall|stage: &Stage, span_start: Seq<u16>|
        stage.of(before_state) ==> #[trigger] scene_wall(
            scene_of(&before_state.framebuffer, before_walls, span_start, before_tree),
            stage,
            sectors,
            textures,
            index,
            wall,
        ) == scene_of(&after_state.framebuffer, after_walls, span_start, after_tree)
}

/// What must hold before a wall is drawn through the window of node
/// `index`.
pub open spec fn render_pre(
    state: &RendererState,
    walls: &WallRenderer,
    portals: &PortalTree,
    sectors: Seq<Sector>,
    textures: Seq<Texture>,
    index: int,
    wall: &Wall,
) -> bool {
    &&& state.framebuffer.wf()
    &&& portals.wf()
    &&& portals.screen_width == state.framebuffer.width
    &&& portals.screen_height == state.framebuffer.height
    &&& nodes_in_world(portals.nodes@, sectors.len() as int)
    &&& 0 <= index < portals.nodes@.len()
    &&& portals.nodes@[index].tree_depth + 1 < usize::MAX
    &&& walls.wf(state.framebuffer.width as int)
    &&& world_ok(sectors, textures)
    &&& portals.nodes@[index].sector_index < sectors.len()
    &&& wall_ok(*wall, sectors.len() as int, textures.len() as int)
    &&& sector_step_ok(portals, walls, index, portals.nodes@[index])
}

impl WallRenderer {
    /// Draws one wall of the sector of node `portal_index` through the
    /// window of that node: a wall with a portal as a portal wall into its
    /// neighbour, any other as a solid wall.
    pub fn render(
        &mut self,
        state: &mut RendererState,
        portals: &mut PortalTree,
        sectors: &[Sector],
        textures: &[Texture],
        portal_index: usize,
        wall: &Wall,
    )
        requires
            render_pre(
                old(state),
                old(self),
                old(portals),
                sectors@,
                textures@,
                portal_index as int,
                wall,
            ),
        ensures
            render_post(
                old(state),
                old(self),
                old(portals),
                final(state),
                final(self),
                final(portals),
                sectors@,
                textures@,
                portal_index as int,
                wall,
            ),
    {
        match wall.portal {
            Some(_) => self.render_portal(state, portals, sectors, textures, portal_index, wall),
            None => self.render_solid(state, portals, sectors, textures, portal_index, wall),
        }
    }

    /// Draws a wall with a portal.
    #[verifier::rlimit(80)]
    #[verifier::spinoff_prover]
    fn render_portal(
        &mut self,
        state: &mut RendererState,
        portals: &mut PortalTree,
        sectors: &[Sector],
        textures: &[Texture],
        portal_index: usize,
        wall: &Wall,
    )
        requires
            render_pre(
                old(state),
                old(self),
                old(portals),
                sectors@,
                textures@,
                portal_index as int,
                wall,
            ),
            wall.portal is Some,
        ensures
            render_post(
                old(state),
                old(self),
                old(portals),
                final(state),
                final(self),
                final(portals),
                sectors@,
                textures@,
                portal_index as int,
                wall,
            ),
    {
        let node: PortalNode = portals.nodes[portal_index];
        assert(portals.node_ok(node));
        let sector = &sectors[node.sector_index];
        let ghost width = state.framebuffer.width as int;
        let ghost height = state.framebuffer.height as int;
        let ghost depth = node.tree_depth as int;
        let ghost lo = portals.portal_bounds_min@[depth]@;
        let ghost hi = portals.portal_bounds_max@[depth]@;
        proof {
            assert forall|x: int| node.x_min <= x < node.x_max implies (#[trigger] lo[x]) <= hi[x]
                && hi[x] <= height by {
                assert(portals.lo(depth, x) <= portals.hi(depth, x));
            }
        }
        let wall_portal_data = match wall.portal {
            Some(p) => p,
            None => {
                return ;
            },
        };
        let next_sector = &sectors[wall_portal_data.sector];
        assert(textures@[wall_portal_data.upper_texture.index as int].wf());
        assert(textures@[wall_portal_data.lower_texture.index as int].wf());
        let upper_texture = &textures[wall_portal_data.upper_texture.index];
        let lower_texture = &textures[wall_portal_data.lower_texture.index];
        let ghost heights = PortalHeights {
            ceiling: sector.ceiling.height,
            floor: sector.floor.height,
            next_ceiling: next_sector.ceiling.height,
            next_floor: next_sector.floor.height,
        };
        let ghost job = spec_prepare_portal_wall(
            &state.spec_lens(),
            &state.frustum,
            node,
            heights,
            wall,
        );
        self.draw_portal_wall(
            state,
            portals,
            portal_index,
            sector,
            next_sector,
            wall,
            upper_texture,
            lower_texture,
        );
        proof {
            if job is Some {
                let j = job.unwrap();
                let look = PortalLook { upper_texture, lower_texture, lighting: j.lighting };
                crate::renderer::wall::lemma_prepared_portal_columns(
                    &old(state).spec_lens(),
                    &old(state).frustum,
                    node,
                    heights,
                    wall,
                );
                lemma_rows_after_portal(
                    old(portals).portal_bounds_min@,
                    portals.portal_bounds_min@,
                    depth,
                    open_lo(width),
                );
                lemma_rows_after_portal(
                    old(portals).portal_bounds_max@,
                    portals.portal_bounds_max@,
                    depth,
                    open_hi(width, height),
                );
                let start = PortalCanvas {
                    pixels: old(state).framebuffer.pixels@,
                    wall_min: old(self).wall_bounds_min@,
                    wall_max: old(self).wall_bounds_max@,
                    child_lo: if depth + 1 < old(portals).layers() {
                        old(portals).portal_bounds_min@[depth + 1]@
                    } else {
                        open_lo(width)
                    },
                    child_hi: if depth + 1 < old(portals).layers() {
                        old(portals).portal_bounds_max@[depth + 1]@
                    } else {
                        open_hi(width, height)
                    },
                };
                assert(start.child_lo.len() == width && start.child_hi.len() == width) by {
                    if depth + 1 < old(portals).layers() {
                        assert(old(portals).portal_bounds_min@[depth + 1]@.len() == width);
                        assert(old(portals).portal_bounds_max@[depth + 1]@.len() == width);
                    }
                }
                assert(node.x_min <= j.x_min && j.x_max <= node.x_max);
                assert forall|x: int| j.x_min <= x < j.x_max implies (#[trigger] lo[x]) <= hi[x]
                    && hi[x] <= height by {
                    assert(node.x_min <= x < node.x_max);
                    assert(old(portals).lo(depth, x) <= old(portals).hi(depth, x));
                }
                lemma_portal_columns_frame(
                    start,
                    width,
                    height,
                    look,
                    lo,
                    hi,
                    j.upper,
                    j.lower,
                    j.x_min as int,
                    j.x_max - j.x_min,
                );
                if depths_ok(old(portals).nodes@) {
                    assert forall|i: int| 0 <= i < portals.nodes@.len() implies (#[trigger] portals.nodes@[i]).tree_depth
                        <= i by {
                        if i < old(portals).nodes@.len() {
                            assert(old(portals).nodes@[i].tree_depth <= i);
                        }
                    }
                }
                assert forall|i: int| 0 <= i < portals.nodes@.len() implies (#[trigger] portals.nodes@[i]).sector_index
                    < sectors@.len() by {
                    if i < old(portals).nodes@.len() {
                        assert(old(portals).nodes@[i].sector_index < sectors@.len());
                    } else {
                        assert(crate::surface::sector_ok(
                            sectors@[wall_portal_data.sector as int],
                            wall_portal_data.sector as int,
                            sectors@.len() as int,
                            textures@.len() as int,
                        ));
                    }
                }
                assert forall|stage: &Stage, span_start: Seq<u16>|
                    stage.of(old(state)) implies #[trigger] scene_wall(
                    scene_of(&old(state).framebuffer, old(self), span_start, old(portals)),
                    stage,
                    sectors@,
                    textures@,
                    portal_index as int,
                    wall,
                ) == scene_of(&state.framebuffer, self, span_start, portals) by {
                    let before = scene_of(&old(state).framebuffer, old(self), span_start, old(portals));
                    let after = scene_of(&state.framebuffer, self, span_start, portals);
                    let model = scene_portal_wall(before, stage, portal_index as int, j, look, next_sector.id);
                    assert(model.rows_min == after.rows_min);
                    assert(model.rows_max == after.rows_max);
                    assert(model.pixels == after.pixels);
                    assert(model.wall_min == after.wall_min);
                    assert(model.wall_max == after.wall_max);
                    assert(model.nodes == after.nodes);
                }
            } else {
                lemma_rows_same(old(portals).portal_bounds_min@, portals.portal_bounds_min@);
                lemma_rows_same(old(portals).portal_bounds_max@, portals.portal_bounds_max@);
            }
            assert(state.framebuffer.wf());
            assert(state.same_view(old(state)));
            assert(portals.wf());
            assert(portals.nodes@.len() >= old(portals).nodes@.len());
            assert(depths_ok(old(portals).nodes@) ==> depths_ok(portals.nodes@));
            assert(nodes_in_world(portals.nodes@, sectors@.len() as int));
            assert(self.wf(old(state).framebuffer.width as int));
            assert(portals.layers() >= old(portals).layers());
            assert(portals.portal_bounds_min@[depth] == old(portals).portal_bounds_min@[depth]);
            assert(portals.portal_bounds_max@[depth] == old(portals).portal_bounds_max@[depth]);
            assert(sector_step_ok(portals, self, portal_index as int, node));
        }
    }

    /// Draws a wall without a portal.
    #[verifier::rlimit(80)]
    #[verifier::spinoff_prover]
    fn render_solid(
        &mut self,
        state: &mut RendererState,
        portals: &mut PortalTree,
        sectors: &[Sector],
        textures: &[Texture],
        portal_index: usize,
        wall: &Wall,
    )
        requires
            render_pre(
                old(state),
                old(self),
                old(portals),
                sectors@,
                textures@,
                portal_index as int,
                wall,
            ),
            wall.portal is None,
        ensures
            render_post(
                old(state),
                old(self),
                old(portals),
                final(state),
                final(self),
                final(portals),
                sectors@,
                textures@,
                portal_index as int,
                wall,
            ),
    {
        let node: PortalNode = portals.nodes[portal_index];
        assert(portals.node_ok(node));
        let sector = &sectors[node.sector_index];
        let ghost width = state.framebuffer.width as int;
        let ghost height = state.framebuffer.height as int;
        let ghost depth = node.tree_depth as int;
        let ghost lo = portals.portal_bounds_min@[depth]@;
        let ghost hi = portals.portal_bounds_max@[depth]@;
        proof {
            assert forall|x: int| node.x_min <= x < node.x_max implies (#[trigger] lo[x]) <= hi[x]
                && hi[x] <= height by {
                assert(portals.lo(depth, x) <= portals.hi(depth, x));
            }
        }
        assert(textures@[wall.texture_data.index as int].wf());
        let texture = &textures[wall.texture_data.index];
        let ghost job = spec_prepare_wall(
            &state.spec_lens(),
            &state.frustum,
            node,
            sector.ceiling.height,
            sector.floor.height,
            wall,
        );
        let mut portal: PortalNode = node;
        let y_bounds = portals.get_bounds(node.tree_depth);
        self.draw_wall(state, &mut portal, y_bounds, sector, wall, texture);
        let ghost before_tree = *portals;
        portals.nodes[portal_index] = portal;
        proof {
            assert forall|i: int| 0 <= i < portals.nodes@.len() implies portals.node_ok(
                #[trigger] portals.nodes@[i],
            ) by {
                assert(before_tree.node_ok(before_tree.nodes@[i]));
            }
            assert forall|d: int, c: int|
                0 <= d < portals.layers() && 0 <= c < portals.screen_width implies (#[trigger] portals.lo(
                d,
                c,
            )) <= portals.hi(d, c) && portals.hi(d, c) <= portals.screen_height by {
                assert(before_tree.lo(d, c) <= before_tree.hi(d, c));
                assert(before_tree.hi(d, c) <= before_tree.screen_height);
            }
            if depths_ok(old(portals).nodes@) {
                assert forall|i: int| 0 <= i < portals.nodes@.len() implies (#[trigger] portals.nodes@[i]).tree_depth
                    <= i by {
                    assert(old(portals).nodes@[i].tree_depth <= i);
                }
            }
            assert forall|i: int| 0 <= i < portals.nodes@.len() implies (#[trigger] portals.nodes@[i]).sector_index
                < sectors@.len() by {
                assert(old(portals).nodes@[i].sector_index < sectors@.len());
            }
            lemma_rows_same(old(portals).portal_bounds_min@, portals.portal_bounds_min@);
            lemma_rows_same(old(portals).portal_bounds_max@, portals.portal_bounds_max@);
            if job is Some {
                let j = job.unwrap();
                crate::renderer::wall::lemma_prepared_wall_columns(
                    &old(state).spec_lens(),
                    &old(state).frustum,
                    node,
                    sector.ceiling.height,
                    sector.floor.height,
                    wall,
                );
                assert(node.x_min <= j.x_min && j.x_max <= node.x_max);
                assert forall|x: int| j.x_min <= x < j.x_max implies (#[trigger] lo[x]) <= hi[x]
                    && hi[x] <= height by {
                    assert(node.x_min <= x < node.x_max);
                    assert(old(portals).lo(depth, x) <= old(portals).hi(depth, x));
                }
                lemma_wall_columns_frame(
                    old(self).canvas(&old(state).framebuffer),
                    width,
                    height,
                    texture,
                    j.lighting,
                    lo,
                    hi,
                    j.interpolator,
                    j.x_min as int,
                    j.x_max - j.x_min,
                );
                assert forall|x: int| node.x_min <= x < node.x_max implies lo[x] <= (#[trigger] self.wall_bounds_min@[x])
                    && self.wall_bounds_min@[x] <= hi[x] && lo[x] <= self.wall_bounds_max@[x]
                    && self.wall_bounds_max@[x] <= hi[x] by {
                    if j.x_min <= x < j.x_max {
                        crate::renderer::wall::lemma_rows_within(
                            j.interpolator.stepped(x - j.x_min),
                            lo[x],
                            hi[x],
                        );
                        assert(self.wall_bounds_max@[x] == j.interpolator.stepped(
                            x - j.x_min,
                        ).spec_bottom_row(lo[x], hi[x]));
                    } else {
                        assert(self.wall_bounds_max@[x] == old(self).wall_bounds_max@[x]);
                        assert(lo[x] <= old(self).wall_bounds_min@[x]);
                    }
                }
                assert forall|stage: &Stage, span_start: Seq<u16>|
                    stage.of(old(state)) implies #[trigger] scene_wall(
                    scene_of(&old(state).framebuffer, old(self), span_start, old(portals)),
                    stage,
                    sectors@,
                    textures@,
                    portal_index as int,
                    wall,
                ) == scene_of(&state.framebuffer, self, span_start, portals) by {
                    let before = scene_of(&old(state).framebuffer, old(self), span_start, old(portals));
                    let after = scene_of(&state.framebuffer, self, span_start, portals);
                    let model = scene_solid_wall(before, stage, portal_index as int, j, texture);
                    assert(model.nodes =~= after.nodes);
                    assert(model.pixels == after.pixels);
                }
            } else {
                assert(portals.nodes@ =~= old(portals).nodes@);
            }
            assert(state.framebuffer.wf());
            assert(state.same_view(old(state)));
            assert(portals.wf());
            assert(portals.nodes@.len() >= old(portals).nodes@.len());
            assert(depths_ok(old(portals).nodes@) ==> depths_ok(portals.nodes@));
            assert(nodes_in_world(portals.nodes@, sectors@.len() as int));
            assert(self.wf(old(state).framebuffer.width as int));
            assert(portals.layers() >= old(portals).layers());
            assert(portals.portal_bounds_min@[depth] == old(portals).portal_bounds_min@[depth]);
            assert(portals.portal_bounds_max@[depth] == old(portals).portal_bounds_max@[depth]);
            assert(sector_step_ok(portals, self, portal_index as int, node));
        }
    }
}

/// Draws sectors: the walls of a sector through a window, then its ceiling
/// and floor in the rows that the walls leave free.
pub struct SectorRenderer {
    pub wall_renderer: WallRenderer,
    pub plane_renderer: PlaneRenderer,
}

/// What must hold before the sector of node `index` is drawn.
pub open spec fn sector_pre(
    state: &RendererState,
    renderer: &SectorRenderer,
    portals: &PortalTree,
    sectors: Seq<Sector>,
    textures: Seq<Texture>,
    index: int,
) -> bool {
    &&& state.framebuffer.wf()
    &&& portals.wf()
    &&& portals.screen_width == state.framebuffer.width
    &&& portals.screen_height == state.framebuffer.height
    &&& nodes_in_world(portals.nodes@, sectors.len() as int)
    &&& 0 <= index < portals.nodes@.len()
    &&& portals.nodes@[index].tree_depth + 1 < usize::MAX
    &&& renderer.wall_renderer.wf(state.framebuffer.width as int)
    &&& renderer.plane_renderer.wf(state.framebuffer.height as int)
    &&& world_ok(sectors, textures)
}

/// What drawing the sector of node `index` leaves true and makes of the
/// scene.
pub open spec fn sector_post(
    before_state: &RendererState,
    before: &SectorRenderer,
    before_tree: &PortalTree,
    after_state: &RendererState,
    after: &SectorRenderer,
    after_tree: &PortalTree,
    sectors: Seq<Sector>,
    textures: Seq<Texture>,
    index: int,
) -> bool {
    let node = before_tree.nodes@[index];
    &&& after_state.framebuffer.wf()
    &&& after_state.same_view(before_state)
    &&& after_tree.wf()
    &&& after_tree.screen_width == before_tree.screen_width
    &&& after_tree.screen_height == before_tree.screen_height
    &&& after_tree.nodes@.len() >= before_tree.nodes@.len()
    &&& depths_ok(before_tree.nodes@) ==> depths_ok(after_tree.nodes@)
    &&& nodes_in_world(after_tree.nodes@, sectors.len() as int)
    &&& after.wall_renderer.wf(before_state.framebuffer.width as int)
    &&& after.plane_renderer.wf(before_state.framebuffer.height as int)
    &&& after.plane_renderer.focal_height_ratios == before.plane_renderer.focal_height_ratios
    &&& sector_step_ok(after_tree, &after.wall_renderer, index, node)
    &&& forall|stage: &Stage|
        stage.of(before_state) && stage.ratios == before.plane_renderer.focal_height_ratios@
            ==> #[trigger] scene_sector(
            scene_of(
                &before_state.framebuffer,
                &before.wall_renderer,
                before.plane_renderer.span_start@,
                before_tree,
            ),
            stage,
            sectors,
            textures,
            index,
        ) == scene_of(
            &after_state.framebuffer,
            &after.wall_renderer,
            after.plane_renderer.span_start@,
            after_tree,
        )
}

impl WallRenderer {
    /// Sets the wall bounds of the columns from `from` up to `to` to the
    /// window rows `lo` and `hi`.
    pub fn reset_bounds(&mut self, lo: &[u16], hi: &[u16], from: usize, to: usize)
        requires
            old(self).wf(lo@.len() as int),
            lo@.len() == hi@.len(),
            from <= to <= lo@.len(),
        ensures
            final(self).wf(lo@.len() as int),
            final(self).wall_bounds_min@ == bounds_reset(
                old(self).wall_bounds_min@,
                lo@,
                from as int,
                to - from,
            ),
            final(self).wall_bounds_max@ == bounds_reset(
                old(self).wall_bounds_max@,
                hi@,
                from as int,
                to - from,
            ),
            forall|x: int|
                from <= x < to ==> #[trigger] final(self).wall_bounds_min@[x] == lo@[x],
            forall|x: int|
                from <= x < to ==> #[trigger] final(self).wall_bounds_max@[x] == hi@[x],
    {
        let mut x: usize = from;
        while x < to
            invariant
                from <= x <= to <= lo@.len(),
                lo@.len() == hi@.len(),
                self.wf(lo@.len() as int),
                self.wall_bounds_min@ == bounds_reset(
                    old(self).wall_bounds_min@,
                    lo@,
                    from as int,
                    x - from,
                ),
                self.wall_bounds_max@ == bounds_reset(
                    old(self).wall_bounds_max@,
                    hi@,
                    from as int,
                    x - from,
                ),
                forall|c: int| from <= c < x ==> #[trigger] self.wall_bounds_min@[c] == lo@[c],
                forall|c: int| from <= c < x ==> #[trigger] self.wall_bounds_max@[c] == hi@[c],
            decreases to - x,
        {
            self.wall_bounds_min[x] = lo[x];
            self.wall_bounds_max[x] = hi[x];
            x = x + 1;
        }
    }
}

impl SectorRenderer {
    /// The buffers are as they are made for the screen of `state`: the wall
    /// bounds the full height in every column, the span starts and the
    /// focal height ratios zero in every row.
    pub open spec fn fresh(&self, state: &RendererState) -> bool {
        &&& forall|x: int|
            0 <= x < state.framebuffer.width ==> self.wall_renderer.wall_bounds_min@[x] == 0
                && self.wall_renderer.wall_bounds_max@[x] == state.framebuffer.height
        &&& forall|y: int|
            0 <= y < state.framebuffer.height ==> self.plane_renderer.span_start@[y] == 0
                && self.plane_renderer.focal_height_ratios@[y] == crate::fixed::Fixed::spec_zero()
    }

    /// Renderers for a screen of the size of `state`.
    pub fn new(state: &RendererState) -> (r: SectorRenderer)
        requires
            state.framebuffer.wf(),
        ensures
            r.wall_renderer.wf(state.framebuffer.width as int),
            r.plane_renderer.wf(state.framebuffer.height as int),
            r.fresh(state),
    {
        SectorRenderer {
            wall_renderer: WallRenderer::new(state),
            plane_renderer: PlaneRenderer::new(state),
        }
    }

    /// Takes the screen size of `state`.
    pub fn set_viewport(&mut self, state: &RendererState)
        requires
            state.framebuffer.wf(),
        ensures
            final(self).wall_renderer.wf(state.framebuffer.width as int),
            final(self).plane_renderer.wf(state.framebuffer.height as int),
            final(self).fresh(state),
    {
        self.wall_renderer.set_viewport(state);
        self.plane_renderer.set_viewport(state);
    }

    /// Makes ready for a frame: the wall bounds and span starts are made
    /// anew and the focal height ratios follow the lens of `state`.
    pub fn update(&mut self, state: &RendererState)
        requires
            state.framebuffer.wf(),
        ensures
            final(self).wall_renderer.wf(state.framebuffer.width as int),
            final(self).plane_renderer.wf(state.framebuffer.height as int),
            final(self).plane_renderer.ratios_of(&state.spec_lens()),
            final(self).wall_renderer.wall_bounds_min@ == open_lo(state.framebuffer.width as int),
            final(self).wall_renderer.wall_bounds_max@ == open_hi(
                state.framebuffer.width as int,
                state.framebuffer.height as int,
            ),
            final(self).plane_renderer.span_start@ == open_lo(state.framebuffer.height as int),
    {
        self.wall_renderer.set_viewport(state);
        self.plane_renderer.set_viewport(state);
        self.wall_renderer.update(state);
        self.plane_renderer.update(state);
        proof {
            assert(self.wall_renderer.wall_bounds_min@ =~= open_lo(state.framebuffer.width as int));
            assert(self.wall_renderer.wall_bounds_max@ =~= open_hi(
                state.framebuffer.width as int,
                state.framebuffer.height as int,
            ));
            assert(self.plane_renderer.span_start@ =~= open_lo(state.framebuffer.height as int));
        }
    }

    /// Draws the sector of node `portal_index` through the window of that
    /// node: first its walls, in order, then its ceiling from the top of
    /// the window down to the walls and its floor from the walls down to
    /// the bottom of the window.
    #[verifier::rlimit(80)]
    #[verifier::spinoff_prover]
    pub fn draw_sector(
        &mut self,
        state: &mut RendererState,
        portals: &mut PortalTree,
        sectors: &[Sector],
        textures: &[Texture],
        portal_index: usize,
    )
        requires
            sector_pre(
                old(state),
                old(self),
                old(portals),
                sectors@,
                textures@,
                portal_index as int,
            ),
        ensures
            sector_post(
                old(state),
                old(self),
                old(portals),
                final(state),
                final(self),
                final(portals),
                sectors@,
                textures@,
                portal_index as int,
            ),
    {
        let node: PortalNode = portals.nodes[portal_index];
        assert(portals.node_ok(node));
        let sector = &sectors[node.sector_index];
        let ghost depth = node.tree_depth as int;
        let ghost width = state.framebuffer.width as int;
        let ghost height = state.framebuffer.height as int;
        let ghost span0 = self.plane_renderer.span_start@;
        let ghost scene0 = scene_of(&state.framebuffer, &self.wall_renderer, span0, portals);
        let ghost lo = portals.portal_bounds_min@[depth]@;
        let ghost hi = portals.portal_bounds_max@[depth]@;
        // No column of the window holds the bounds of an earlier wall.
        {
            let bounds = portals.get_bounds(node.tree_depth);
            self.wall_renderer.reset_bounds(bounds.0, bounds.1, node.x_min, node.x_max);
        }
        let ghost cleared = scene_of(&state.framebuffer, &self.wall_renderer, span0, portals);
        proof {
            assert forall|x: int| node.x_min <= x < node.x_max implies lo[x] <= (#[trigger] self.wall_renderer.wall_bounds_min@[x])
                && self.wall_renderer.wall_bounds_min@[x] <= hi[x] && lo[x]
                <= self.wall_renderer.wall_bounds_max@[x] && self.wall_renderer.wall_bounds_max@[x]
                <= hi[x] by {
                assert(portals.lo(depth, x) <= portals.hi(depth, x));
                assert(self.wall_renderer.wall_bounds_max@[x] == hi[x]);
            }
        }
        let count: usize = sector.walls.len();
        let mut i: usize = 0;
        while i < count
            invariant
                i <= count,
                count == sector.walls@.len(),
                *sector == sectors@[node.sector_index as int],
                node.sector_index < sectors@.len(),
                state.framebuffer.wf(),
                state.same_view(old(state)),
                portals.wf(),
                portals.screen_width == state.framebuffer.width,
                portals.screen_height == state.framebuffer.height,
                portals.nodes@.len() >= old(portals).nodes@.len(),
                depths_ok(old(portals).nodes@) ==> depths_ok(portals.nodes@),
                nodes_in_world(portals.nodes@, sectors@.len() as int),
                portal_index < portals.nodes@.len(),
                self.wall_renderer.wf(state.framebuffer.width as int),
                self.plane_renderer == old(self).plane_renderer,
                world_ok(sectors@, textures@),
                depth == node.tree_depth,
                node.tree_depth + 1 < usize::MAX,
                depth < portals.layers(),
                lo == portals.portal_bounds_min@[depth]@,
                hi == portals.portal_bounds_max@[depth]@,
                sector_step_ok(portals, &self.wall_renderer, portal_index as int, node),
                forall|stage: &Stage|
                    stage.of(old(state)) ==> #[trigger] scene_walls(
                        cleared,
                        stage,
                        sectors@,
                        textures@,
                        portal_index as int,
                        sector.walls@,
                        i as int,
                    ) == scene_of(&state.framebuffer, &self.wall_renderer, span0, portals),
            decreases count - i,
        {
            let wall = &sector.walls[i];
            let ghost before = scene_of(&state.framebuffer, &self.wall_renderer, span0, portals);
            let ghost before_state = *state;
            proof {
                assert(crate::surface::sector_ok(
                    sectors@[node.sector_index as int],
                    node.sector_index as int,
                    sectors@.len() as int,
                    textures@.len() as int,
                ));
            }
            self.wall_renderer.render(state, portals, sectors, textures, portal_index, wall);
            proof {
                assert forall|stage: &Stage| stage.of(old(state)) implies #[trigger] scene_walls(
                    cleared,
                    stage,
                    sectors@,
                    textures@,
                    portal_index as int,
                    sector.walls@,
                    i + 1,
                ) == scene_of(&state.framebuffer, &self.wall_renderer, span0, portals) by {
                    assert(stage.of(&before_state));
                    assert(scene_walls(
                        cleared,
                        stage,
                        sectors@,
                        textures@,
                        portal_index as int,
                        sector.walls@,
                        i as int,
                    ) == before);
                    assert(scene_wall(
                        before,
                        stage,
                        sectors@,
                        textures@,
                        portal_index as int,
                        wall,
                    ) == scene_of(&state.framebuffer, &self.wall_renderer, span0, portals));
                }
            }
            i = i + 1;
        }
        let ghost walled = scene_of(&state.framebuffer, &self.wall_renderer, span0, portals);
        let ghost walled_state = *state;
        let lens = state.lens();
        let vs_ceiling_height = lens.camera.z.minus(sector.ceiling.height);
        let vs_floor_height = lens.camera.z.minus(sector.floor.height);
        proof {
            assert(crate::surface::sector_ok(
                sectors@[node.sector_index as int],
                node.sector_index as int,
                sectors@.len() as int,
                textures@.len() as int,
            ));
            assert(textures@[sector.ceiling.texture_data.index as int].wf());
            assert(textures@[sector.floor.texture_data.index as int].wf());
            assert forall|x: int| node.x_min <= x < node.x_max implies (#[trigger] lo[x]) <= height
                && self.wall_renderer.wall_bounds_min@[x] <= height by {
                assert(portals.lo(depth, x) <= portals.hi(depth, x));
                assert(portals.hi(depth, x) <= height);
                assert(lo[x] <= self.wall_renderer.wall_bounds_min@[x]);
            }
            assert forall|x: int| node.x_min <= x < node.x_max implies (#[trigger] self.wall_renderer.wall_bounds_max@[x])
                <= height && hi[x] <= height by {
                assert(portals.lo(depth, x) <= portals.hi(depth, x));
                assert(portals.hi(depth, x) <= height);
                assert(lo[x] <= self.wall_renderer.wall_bounds_min@[x]);
            }
        }
        let portal_bounds = portals.get_bounds(node.tree_depth);
        let wall_bounds = self.wall_renderer.get_wall_bounds();
        // Sector ceiling.
        self.plane_renderer.draw_plane(
            state,
            &node,
            (portal_bounds.0, wall_bounds.0),
            vs_ceiling_height,
            &textures[sector.ceiling.texture_data.index],
            sector.ceiling.texture_data.offset,
            &sector.ceiling.texture_data.scale_rotate,
        );
        let ghost ceiled = scene_of(
            &state.framebuffer,
            &self.wall_renderer,
            self.plane_renderer.span_start@,
            portals,
        );
        // Sector floor.
        self.plane_renderer.draw_plane(
            state,
            &node,
            (wall_bounds.1, portal_bounds.1),
            vs_floor_height,
            &textures[sector.floor.texture_data.index],
            sector.floor.texture_data.offset,
            &sector.floor.texture_data.scale_rotate,
        );
        proof {
            let after = scene_of(
                &state.framebuffer,
                &self.wall_renderer,
                self.plane_renderer.span_start@,
                portals,
            );
            assert forall|stage: &Stage|
                stage.of(old(state)) && stage.ratios == old(
                    self,
                ).plane_renderer.focal_height_ratios@ implies #[trigger] scene_sector(
                scene0,
                stage,
                sectors@,
                textures@,
                portal_index as int,
            ) == after by {
                assert(scene0.rows_min[depth] == lo);
                assert(scene0.rows_max[depth] == hi);
                let model_cleared = Scene {
                    wall_min: bounds_reset(
                        scene0.wall_min,
                        scene0.rows_min[depth],
                        node.x_min as int,
                        node.x_max - node.x_min,
                    ),
                    wall_max: bounds_reset(
                        scene0.wall_max,
                        scene0.rows_max[depth],
                        node.x_min as int,
                        node.x_max - node.x_min,
                    ),
                    ..scene0
                };
                assert(model_cleared == cleared);
                assert(scene_walls(
                    cleared,
                    stage,
                    sectors@,
                    textures@,
                    portal_index as int,
                    sector.walls@,
                    sector.walls@.len() as int,
                ) == walled);
                assert(walled.nodes[portal_index as int].x_min == node.x_min);
                assert(walled.nodes[portal_index as int].x_max == node.x_max);
                assert(walled.rows_min[depth] == lo);
                assert(walled.rows_max[depth] == hi);
                let ceiling_look = PlaneLook {
                    lens: stage.lens,
                    height_offset: stage.lens.camera.z.spec_minus(sector.ceiling.height),
                    texture: &textures@[sector.ceiling.texture_data.index as int],
                    texture_offset: sector.ceiling.texture_data.offset,
                    texture_scale_rotate: sector.ceiling.texture_data.scale_rotate,
                };
                assert(scene_plane(
                    walled,
                    stage,
                    portal_index as int,
                    &ceiling_look,
                    walled.rows_min[depth],
                    walled.wall_min,
                ) == ceiled);
                let floor_look = PlaneLook {
                    lens: stage.lens,
                    height_offset: stage.lens.camera.z.spec_minus(sector.floor.height),
                    texture: &textures@[sector.floor.texture_data.index as int],
                    texture_offset: sector.floor.texture_data.offset,
                    texture_scale_rotate: sector.floor.texture_data.scale_rotate,
                };
                assert(scene_plane(
                    ceiled,
                    stage,
                    portal_index as int,
                    &floor_look,
                    ceiled.wall_max,
                    ceiled.rows_max[depth],
                ) == after);
            }
            assert(state.framebuffer.wf());
            assert(state.same_view(old(state)));
            assert(portals.wf());
            assert(portals.nodes@.len() >= old(portals).nodes@.len());
            assert(depths_ok(old(portals).nodes@) ==> depths_ok(portals.nodes@));
            assert(nodes_in_world(portals.nodes@, sectors@.len() as int));
            assert(self.wall_renderer.wf(old(state).framebuffer.width as int));
            assert(self.plane_renderer.wf(old(state).framebuffer.height as int));
            assert(self.plane_renderer.focal_height_ratios == old(
                self,
            ).plane_renderer.focal_height_ratios);
            assert(sector_step_ok(portals, &self.wall_renderer, portal_index as int, node));
        }
    }
}

} // verus!
