//! The renderer: one frame from the player's sector outwards.

use vstd::prelude::*;
use crate::camera::Camera;
use crate::colour::BGRA8;
use crate::consts::near;
use crate::fixed::Fixed;
use crate::maths::polygon::Polygon;
use crate::player::Player;
use crate::renderer::framebuffer::Framebuffer;
use crate::renderer::framebuffer::MAX_SIDE;
use crate::renderer::plane::spec_focal_height_ratio;
use crate::renderer::portal::PortalNode;
use crate::renderer::portal::PortalTree;
use crate::renderer::scene::depths_ok;
use crate::renderer::scene::nodes_in_world;
use crate::renderer::scene::rows_of;
use crate::renderer::scene::scene_of;
use crate::renderer::scene::scene_sector;
use crate::renderer::scene::scene_traversed;
use crate::renderer::scene::Scene;
use crate::renderer::scene::Stage;
use crate::renderer::sector::sector_post;
use crate::renderer::sector::sector_pre;
use crate::renderer::sector::SectorRenderer;
use crate::renderer::sprite::sprite_pixels;
use crate::renderer::sprite::SpriteRenderer;
use crate::renderer::state::Lens;
use crate::renderer::state::RendererState;
use crate::renderer::portal::open_hi;
use crate::renderer::portal::open_lo;
use crate::surface::world_ok;
use crate::surface::Sector;
use crate::surface::Sprite;
use crate::textures::Texture;

verus! {

/// Number of depths for which a portal tree has rows at the start of a
/// frame.
pub const INITIAL_LAYERS: usize = 4;

/// The colour in which the windows of depth `depth` are outlined.
pub open spec fn spec_debug_colour(depth: usize) -> BGRA8 {
    let d = (depth % 256) as int;
    BGRA8 {
        r: ((192 * d + 64) % 256) as u8,
        g: ((64 * d + 32) % 256) as u8,
        b: ((32 * d + 192) % 256) as u8,
        a: 255,
    }
}

/// The colour in which the windows of depth `depth` are outlined.
#[verifier::when_used_as_spec(spec_debug_colour)]
pub fn debug_colour(depth: usize) -> (c: BGRA8)
    ensures
        c == spec_debug_colour(depth),
{
    let d: u32 = (depth % 256) as u32;
    BGRA8 {
        r: ((192 * d + 64) % 256) as u8,
        g: ((64 * d + 32) % 256) as u8,
        b: ((32 * d + 192) % 256) as u8,
        a: 255,
    }
}

/// The pixels after the `k` rows from row `y_min` on of column `x` have
/// been set to `colour`.
pub open spec fn column_marked(
    pixels: Seq<BGRA8>,
    width: int,
    x: int,
    y_min: int,
    k: int,
    colour: BGRA8,
) -> Seq<BGRA8>
    decreases k,
{
    if k <= 0 {
        pixels
    } else {
        column_marked(pixels, width, x, y_min, k - 1, colour).update(
            (y_min + k - 1) * width + x,
            colour,
        )
    }
}

/// The pixels after the first and the last row of the window have been set
/// to `colour` in each of the `k` columns from column `x_min` on in which
/// the window has a row at all.
pub open spec fn edges_marked(
    pixels: Seq<BGRA8>,
    width: int,
    lo: Seq<u16>,
    hi: Seq<u16>,
    x_min: int,
    k: int,
    colour: BGRA8,
) -> Seq<BGRA8>
    decreases k,
{
    if k <= 0 {
        pixels
    } else {
        let prev = edges_marked(pixels, width, lo, hi, x_min, k - 1, colour);
        let x = x_min + k - 1;
        if lo[x] == hi[x] {
            prev
        } else {
            prev.update(lo[x] * width + x, colour).update((hi[x] - 1) * width + x, colour)
        }
    }
}

/// The pixels after the window of `node` has been outlined: its first and
/// last column from top to bottom, and its first and last row in every
/// column. A window without columns is not outlined.
pub open spec fn node_outlined(
    pixels: Seq<BGRA8>,
    width: int,
    node: PortalNode,
    lo: Seq<u16>,
    hi: Seq<u16>,
) -> Seq<BGRA8> {
    if node.x_min == node.x_max {
        pixels
    } else {
        let colour = spec_debug_colour(node.tree_depth);
        let left = node.x_min as int;
        let right = node.x_max - 1;
        let a = column_marked(pixels, width, left, lo[left] as int, hi[left] - lo[left], colour);
        let b = column_marked(a, width, right, lo[right] as int, hi[right] - lo[right], colour);
        edges_marked(b, width, lo, hi, node.x_min as int, node.x_max - node.x_min, colour)
    }
}

/// The pixels after the windows of the first `n` nodes have been outlined.
pub open spec fn nodes_outlined(
    pixels: Seq<BGRA8>,
    width: int,
    nodes: Seq<PortalNode>,
    rows_min: Seq<Seq<u16>>,
    rows_max: Seq<Seq<u16>>,
    n: int,
) -> Seq<BGRA8>
    decreases n,
{
    if n <= 0 {
        pixels
    } else {
        node_outlined(
            nodes_outlined(pixels, width, nodes, rows_min, rows_max, n - 1),
            width,
            nodes[n - 1],
            rows_min[nodes[n - 1].tree_depth as int],
            rows_max[nodes[n - 1].tree_depth as int],
        )
    }
}

/// The pixels after the first `n` sprites have been drawn, each inside the
/// windows of its sector among `nodes`.
pub open spec fn sprites_drawn(
    pixels: Seq<BGRA8>,
    lens: &Lens,
    frustum: &Polygon,
    width: usize,
    height: usize,
    nodes: Seq<PortalNode>,
    rows_min: Seq<Seq<u16>>,
    rows_max: Seq<Seq<u16>>,
    sprites: Seq<Sprite>,
    textures: Seq<Texture>,
    n: int,
) -> Seq<BGRA8>
    decreases n,
{
    if n <= 0 {
        pixels
    } else {
        sprite_pixels(
            sprites_drawn(
                pixels,
                lens,
                frustum,
                width,
                height,
                nodes,
                rows_min,
                rows_max,
                sprites,
                textures,
                n - 1,
            ),
            lens,
            frustum,
            width,
            height,
            nodes,
            rows_min,
            rows_max,
            &sprites[n - 1],
            &textures[sprites[n - 1].texture_data.index as int],
        )
    }
}

/// The node through which the sector of the player is seen: the whole
/// screen at depth zero.
pub open spec fn root_node(width: usize, sector: usize) -> PortalNode {
    PortalNode {
        tree_depth: 0,
        sector_index: sector,
        x_min: 0,
        x_max: width,
        depth_min: near(),
        depth_max: near(),
    }
}

/// The scene at the start of a frame: every pixel clear, every bound the
/// full screen, and the root node alone in the tree.
pub open spec fn frame_start(width: usize, height: usize, sector: usize) -> Scene {
    Scene {
        pixels: Seq::new((width * height) as nat, |i: int| BGRA8::spec_clear()),
        wall_min: open_lo(width as int),
        wall_max: open_hi(width as int, height as int),
        span_start: open_lo(height as int),
        nodes: seq![root_node(width, sector)],
        rows_min: Seq::new(INITIAL_LAYERS as nat, |d: int| open_lo(width as int)),
        rows_max: Seq::new(INITIAL_LAYERS as nat, |d: int| open_hi(width as int, height as int)),
    }
}

/// The lens of `state` with `camera` behind it.
pub open spec fn frame_lens(state: &RendererState, camera: Camera) -> Lens {
    Lens {
        camera,
        half_width: state.framebuffer.spec_half_width(),
        half_height: state.framebuffer.spec_half_height(),
        focal_width: state.focal_width,
        focal_height: state.focal_height,
        inv_focal_width: state.inv_focal_width,
        pitch_shear: camera.pitch_tan.spec_times(state.focal_height),
    }
}

/// The stage of a frame seen by `camera` through the view of `state`.
pub open spec fn frame_stage<'a>(state: &'a RendererState, camera: Camera) -> Stage<'a> {
    Stage {
        width: state.framebuffer.width,
        height: state.framebuffer.height,
        lens: frame_lens(state, camera),
        frustum: &state.frustum,
        ratios: Seq::new(
            state.framebuffer.height as nat,
            |y: int| spec_focal_height_ratio(&frame_lens(state, camera), y as usize),
        ),
    }
}

/// The scene that the sectors of a frame leave: from the clear screen, the
/// sectors are drawn from that of the player outwards, each node in its
/// turn.
pub open spec fn frame_scene(
    stage: &Stage,
    player_sector: usize,
    textures: Seq<Texture>,
    sectors: Seq<Sector>,
) -> Scene {
    scene_traversed(
        frame_start(stage.width, stage.height, player_sector),
        stage,
        sectors,
        textures,
        0,
    )
}

/// The pixels of a frame: the sectors are drawn; then the sprites are drawn
/// in order; then, if `debug` is set, every window is outlined.
pub open spec fn frame_pixels(
    stage: &Stage,
    player_sector: usize,
    textures: Seq<Texture>,
    sectors: Seq<Sector>,
    sprites: Seq<Sprite>,
    debug: bool,
) -> Seq<BGRA8> {
    let scene = frame_scene(stage, player_sector, textures, sectors);
    let with_sprites = sprites_drawn(
        scene.pixels,
        &stage.lens,
        stage.frustum,
        stage.width,
        stage.height,
        scene.nodes,
        scene.rows_min,
        scene.rows_max,
        sprites,
        textures,
        sprites.len() as int,
    );
    if debug {
        nodes_outlined(
            with_sprites,
            stage.width as int,
            scene.nodes,
            scene.rows_min,
            scene.rows_max,
            scene.nodes.len() as int,
        )
    } else {
        with_sprites
    }
}

/// Every sprite names a texture that exists.
pub open spec fn sprites_ok(sprites: Seq<Sprite>, texture_count: int) -> bool {
    forall|i: int| 0 <= i < sprites.len() ==> (#[trigger] sprites[i]).texture_data.index < texture_count
}

/// Sets the rows from `y_min` up to `y_max` of column `x` to `colour`.
fn mark_column(framebuffer: &mut Framebuffer, x: usize, y_min: usize, y_max: usize, colour: BGRA8)
    requires
        old(framebuffer).wf(),
        x < old(framebuffer).width,
        y_max <= old(framebuffer).height,
    ensures
        final(framebuffer).wf(),
        final(framebuffer).width == old(framebuffer).width,
        final(framebuffer).height == old(framebuffer).height,
        final(framebuffer).pixels@ == column_marked(
            old(framebuffer).pixels@,
            old(framebuffer).width as int,
            x as int,
            y_min as int,
            y_max - y_min,
            colour,
        ),
{
    let mut y: usize = y_min;
    while y < y_max
        invariant
            y_min <= y,
            y <= y_max || y_max < y_min,
            y_max < y_min ==> y == y_min,
            framebuffer.wf(),
            framebuffer.width == old(framebuffer).width,
            framebuffer.height == old(framebuffer).height,
            x < framebuffer.width,
            y_max <= framebuffer.height,
            framebuffer.pixels@ == column_marked(
                old(framebuffer).pixels@,
                old(framebuffer).width as int,
                x as int,
                y_min as int,
                y - y_min,
                colour,
            ),
        decreases y_max - y,
    {
        framebuffer.set_pixel_unchecked(x, y, colour);
        y = y + 1;
    }
}

/// Sets the first and the last row of the window to `colour` in every
/// column from `x_min` up to `x_max` in which the window has a row.
fn mark_edges(
    framebuffer: &mut Framebuffer,
    lo: &[u16],
    hi: &[u16],
    x_min: usize,
    x_max: usize,
    colour: BGRA8,
)
    requires
        old(framebuffer).wf(),
        lo@.len() == old(framebuffer).width,
        hi@.len() == old(framebuffer).width,
        x_min <= x_max <= old(framebuffer).width,
        crate::renderer::wall::window_ok(
            lo@,
            hi@,
            x_min as int,
            x_max as int,
            old(framebuffer).height as int,
        ),
    ensures
        final(framebuffer).wf(),
        final(framebuffer).width == old(framebuffer).width,
        final(framebuffer).height == old(framebuffer).height,
        final(framebuffer).pixels@ == edges_marked(
            old(framebuffer).pixels@,
            old(framebuffer).width as int,
            lo@,
            hi@,
            x_min as int,
            x_max - x_min,
            colour,
        ),
{
    let mut x: usize = x_min;
    while x < x_max
        invariant
            x_min <= x <= x_max <= framebuffer.width,
            framebuffer.wf(),
            framebuffer.width == old(framebuffer).width,
            framebuffer.height == old(framebuffer).height,
            lo@.len() == framebuffer.width,
            hi@.len() == framebuffer.width,
            crate::renderer::wall::window_ok(
                lo@,
                hi@,
                x_min as int,
                x_max as int,
                framebuffer.height as int,
            ),
            framebuffer.pixels@ == edges_marked(
                old(framebuffer).pixels@,
                old(framebuffer).width as int,
                lo@,
                hi@,
                x_min as int,
                x - x_min,
                colour,
            ),
        decreases x_max - x,
    {
        let top: u16 = lo[x];
        let bottom: u16 = hi[x];
        assert(top <= bottom && bottom <= framebuffer.height) by {
            assert(lo@[x as int] <= hi@[x as int]);
        }
        // A window without rows in this column has no edge here.
        if top != bottom {
            framebuffer.set_pixel_unchecked(x, top as usize, colour);
            framebuffer.set_pixel_unchecked(x, (bottom - 1) as usize, colour);
        }
        x = x + 1;
    }
}

/// The renderer: the view, the portal tree and the rasterisers.
pub struct Renderer {
    pub state: RendererState,
    pub portal_tree: PortalTree,
    pub sector_renderer: SectorRenderer,
    pub sprite_renderer: SpriteRenderer,
}

impl Renderer {
    /// The view is well formed and every buffer has the size of the
    /// screen.
    pub open spec fn wf(&self) -> bool {
        &&& self.state.wf()
        &&& self.portal_tree.wf()
        &&& self.portal_tree.screen_width == self.state.framebuffer.width
        &&& self.portal_tree.screen_height == self.state.framebuffer.height
        &&& self.sector_renderer.wall_renderer.wf(self.state.framebuffer.width as int)
        &&& self.sector_renderer.plane_renderer.wf(self.state.framebuffer.height as int)
        &&& self.sprite_renderer.wf(self.state.framebuffer.width as int)
    }

    /// A renderer for a screen of `screen_width` by `screen_height` pixels
    /// with a horizontal field of view of `h_fov` degrees.
    pub fn new(screen_width: usize, screen_height: usize, h_fov: Fixed) -> (r: Renderer)
        requires
            screen_width <= MAX_SIDE,
            screen_height <= MAX_SIDE,
        ensures
            r.wf(),
            r.state.framebuffer.width == screen_width,
            r.state.framebuffer.height == screen_height,
            r.state.h_fov == h_fov,
            r.state.camera == Camera::spec_new(
                crate::maths::vec::Vec2f::spec_zero(),
                Fixed::spec_zero(),
            ),
            !r.state.debug,
            r.portal_tree.nodes@.len() == 0,
            r.portal_tree.layers() == INITIAL_LAYERS,
            forall|i: int|
                0 <= i < r.state.framebuffer.pixels@.len() ==> r.state.framebuffer.pixels@[i]
                    == BGRA8::spec_clear(),
    {
        let state = RendererState::new(screen_width, screen_height, h_fov);
        let portal_tree = PortalTree::with_depth(INITIAL_LAYERS, screen_width, screen_height);
        let sector_renderer = SectorRenderer::new(&state);
        let sprite_renderer = SpriteRenderer::new(&state);
        Renderer { state, portal_tree, sector_renderer, sprite_renderer }
    }

    /// The view.
    pub fn state(&self) -> (r: &RendererState)
        ensures
            *r == self.state,
    {
        &self.state
    }

    /// The view, to be changed: the outline of the windows is switched on
    /// and off here. Whoever changes more than that must keep the renderer
    /// well formed.
    pub fn state_mut(&mut self) -> (r: &mut RendererState)
        ensures
            *r == old(self).state,
            final(self).state == *final(r),
            final(self).portal_tree == old(self).portal_tree,
            final(self).sector_renderer == old(self).sector_renderer,
            final(self).sprite_renderer == old(self).sprite_renderer,
    {
        &mut self.state
    }

    /// Switches the outline of the windows on or off.
    pub fn set_debug(&mut self, debug: bool)
        requires
            old(self).wf(),
        ensures
            final(self).wf(),
            final(self).state.debug == debug,
            final(self).state.framebuffer == old(self).state.framebuffer,
            final(self).state.camera == old(self).state.camera,
            final(self).state.frustum == old(self).state.frustum,
            final(self).state.h_fov == old(self).state.h_fov,
            final(self).state.v_fov == old(self).state.v_fov,
            final(self).state.focal_width == old(self).state.focal_width,
            final(self).state.focal_height == old(self).state.focal_height,
            final(self).state.inv_focal_width == old(self).state.inv_focal_width,
            final(self).state.inv_focal_height == old(self).state.inv_focal_height,
            final(self).state.pitch_shear == old(self).state.pitch_shear,
            final(self).portal_tree == old(self).portal_tree,
            final(self).sector_renderer == old(self).sector_renderer,
            final(self).sprite_renderer == old(self).sprite_renderer,
    {
        self.state.debug = debug;
    }

    /// The framebuffer.
    pub fn framebuffer(&self) -> (r: &Framebuffer)
        ensures
            *r == self.state.framebuffer,
    {
        &self.state.framebuffer
    }

    /// Takes a new screen size. With the size that the screen has, nothing
    /// changes.
    pub fn set_viewport(&mut self, screen_width: usize, screen_height: usize)
        requires
            old(self).wf(),
            screen_width <= MAX_SIDE,
            screen_height <= MAX_SIDE,
        ensures
            final(self).wf(),
            final(self).state.framebuffer.width == screen_width,
            final(self).state.framebuffer.height == screen_height,
            final(self).state.h_fov == old(self).state.h_fov,
            final(self).state.debug == old(self).state.debug,
            final(self).state.camera == old(self).state.camera,
            screen_width == old(self).state.framebuffer.width && screen_height == old(
                self,
            ).state.framebuffer.height ==> *final(self) == *old(self),
            !(screen_width == old(self).state.framebuffer.width && screen_height == old(
                self,
            ).state.framebuffer.height) ==> final(self).portal_tree.nodes@.len() == 0
                && forall|i: int|
                0 <= i < final(self).state.framebuffer.pixels@.len()
                    ==> final(self).state.framebuffer.pixels@[i] == BGRA8::spec_clear(),
    {
        if screen_width == self.state.framebuffer.width() && screen_height
            == self.state.framebuffer.height() {
            return ;
        }
        self.state.set_viewport(screen_width, screen_height);
        self.portal_tree.resize_bounds(screen_width, screen_height);
        self.sector_renderer.set_viewport(&self.state);
        self.sprite_renderer.set_viewport(&self.state);
    }

    /// Takes a new horizontal field of view in degrees. With the field of
    /// view that the renderer has, nothing changes.
    pub fn set_fov(&mut self, h_fov: Fixed)
        requires
            old(self).wf(),
        ensures
            final(self).wf(),
            final(self).state.h_fov == h_fov,
            final(self).state.framebuffer == old(self).state.framebuffer,
            final(self).state.debug == old(self).state.debug,
            h_fov == old(self).state.h_fov ==> *final(self) == *old(self),
    {
        if h_fov.raw == self.state.h_fov().raw {
            return ;
        }
        self.state.set_fov(h_fov);
    }

    /// Outlines the window of every node in the colour of its depth.
    pub fn debug_draw_portals(&mut self)
        requires
            old(self).wf(),
        ensures
            final(self).wf(),
            final(self).state.same_view(&old(self).state),
            final(self).state.frustum == old(self).state.frustum,
            final(self).portal_tree == old(self).portal_tree,
            final(self).state.framebuffer.pixels@ == nodes_outlined(
                old(self).state.framebuffer.pixels@,
                old(self).state.framebuffer.width as int,
                old(self).portal_tree.nodes@,
                rows_of(old(self).portal_tree.portal_bounds_min@),
                rows_of(old(self).portal_tree.portal_bounds_max@),
                old(self).portal_tree.nodes@.len() as int,
            ),
    {
        let count: usize = self.portal_tree.nodes.len();
        let mut i: usize = 0;
        while i < count
            invariant
                i <= count,
                count == self.portal_tree.nodes@.len(),
                self.wf(),
                self.state.same_view(&old(self).state),
                self.state.frustum == old(self).state.frustum,
                self.portal_tree == old(self).portal_tree,
                self.state.framebuffer.pixels@ == nodes_outlined(
                    old(self).state.framebuffer.pixels@,
                    old(self).state.framebuffer.width as int,
                    old(self).portal_tree.nodes@,
                    rows_of(old(self).portal_tree.portal_bounds_min@),
                    rows_of(old(self).portal_tree.portal_bounds_max@),
                    i as int,
                ),
            decreases count - i,
        {
            let portal: PortalNode = self.portal_tree.nodes[i];
            assert(self.portal_tree.node_ok(portal));
            // A window without columns has no outline.
            if portal.x_min != portal.x_max {
                let colour = debug_colour(portal.tree_depth);
                let y_bounds = self.portal_tree.get_bounds(portal.tree_depth);
                let left_x: usize = portal.x_min;
                let right_x: usize = portal.x_max - 1;
                let ghost height = self.state.framebuffer.height as int;
                proof {
                    assert forall|x: int| portal.x_min <= x < portal.x_max implies (#[trigger] y_bounds.0@[x])
                        <= y_bounds.1@[x] && y_bounds.1@[x] <= height by {
                        assert(self.portal_tree.lo(portal.tree_depth as int, x)
                            <= self.portal_tree.hi(portal.tree_depth as int, x));
                        assert(self.portal_tree.hi(portal.tree_depth as int, x) <= height);
                    }
                    assert(crate::renderer::wall::window_ok(
                        y_bounds.0@,
                        y_bounds.1@,
                        portal.x_min as int,
                        portal.x_max as int,
                        height,
                    ));
                    assert(y_bounds.0@[left_x as int] <= y_bounds.1@[left_x as int]);
                    assert(y_bounds.0@[right_x as int] <= y_bounds.1@[right_x as int]);
                }
                mark_column(
                    &mut self.state.framebuffer,
                    left_x,
                    y_bounds.0[left_x] as usize,
                    y_bounds.1[left_x] as usize,
                    colour,
                );
                mark_column(
                    &mut self.state.framebuffer,
                    right_x,
                    y_bounds.0[right_x] as usize,
                    y_bounds.1[right_x] as usize,
                    colour,
                );
                mark_edges(
                    &mut self.state.framebuffer,
                    y_bounds.0,
                    y_bounds.1,
                    portal.x_min,
                    portal.x_max,
                    colour,
                );
            }
            i = i + 1;
        }
    }
}

/// What a frame leaves of the renderer and makes of the framebuffer: the
/// view is that of before with the camera of the player behind it, the
/// pixels are those of the frame, and the tree holds the windows of the
/// frame with their rows, no node deeper than its place in the list and
/// every node in a sector of the world.
pub open spec fn update_post(
    before: &Renderer,
    after: &Renderer,
    player: &Player,
    textures: Seq<Texture>,
    sectors: Seq<Sector>,
    sprites: Seq<Sprite>,
) -> bool {
    &&& after.wf()
    &&& after.state.camera == player.camera
    &&& after.state.pitch_shear == player.camera.pitch_tan.spec_times(before.state.focal_height)
    &&& after.state.framebuffer.width == before.state.framebuffer.width
    &&& after.state.framebuffer.height == before.state.framebuffer.height
    &&& after.state.frustum == before.state.frustum
    &&& after.state.h_fov == before.state.h_fov
    &&& after.state.v_fov == before.state.v_fov
    &&& after.state.focal_width == before.state.focal_width
    &&& after.state.focal_height == before.state.focal_height
    &&& after.state.inv_focal_width == before.state.inv_focal_width
    &&& after.state.inv_focal_height == before.state.inv_focal_height
    &&& after.state.debug == before.state.debug
    &&& after.state.framebuffer.pixels@ == frame_pixels(
        &frame_stage(&before.state, player.camera),
        player.sector_index,
        textures,
        sectors,
        sprites,
        before.state.debug,
    )
    &&& ({
        let scene = frame_scene(
            &frame_stage(&before.state, player.camera),
            player.sector_index,
            textures,
            sectors,
        );
        &&& after.portal_tree.nodes@ == scene.nodes
        &&& rows_of(after.portal_tree.portal_bounds_min@) == scene.rows_min
        &&& rows_of(after.portal_tree.portal_bounds_max@) == scene.rows_max
    })
    &&& depths_ok(after.portal_tree.nodes@)
    &&& nodes_in_world(after.portal_tree.nodes@, sectors.len() as int)
}

impl Renderer {
    /// The scene that the renderer holds.
    pub open spec fn scene(&self) -> Scene {
        scene_of(
            &self.state.framebuffer,
            &self.sector_renderer.wall_renderer,
            self.sector_renderer.plane_renderer.span_start@,
            &self.portal_tree,
        )
    }

    /// What holds of the renderer while a frame is drawn.
    pub open spec fn in_frame(&self, sectors: Seq<Sector>, textures: Seq<Texture>) -> bool {
        &&& self.wf()
        &&& depths_ok(self.portal_tree.nodes@)
        &&& nodes_in_world(self.portal_tree.nodes@, sectors.len() as int)
        &&& world_ok(sectors, textures)
    }

    /// Everything of the view but the pixels is as in `other`, and so are
    /// the focal height ratios.
    pub open spec fn same_lens(&self, other: &Renderer) -> bool {
        &&& self.state.same_view(&other.state)
        &&& self.sector_renderer.plane_renderer.focal_height_ratios
            == other.sector_renderer.plane_renderer.focal_height_ratios
    }

    /// Makes ready for a frame: takes the camera of the player, clears the
    /// framebuffer, makes the bounds and the portal tree anew, and puts the
    /// root node into the tree.
    fn begin_frame(&mut self, player: &Player)
        requires
            old(self).wf(),
        ensures
            final(self).wf(),
            final(self).state.same_view(
                &(RendererState {
                    camera: player.camera,
                    pitch_shear: player.camera.pitch_tan.spec_times(old(self).state.focal_height),
                    ..old(self).state
                }),
            ),
            final(self).state.spec_lens() == frame_lens(&old(self).state, player.camera),
            final(self).sector_renderer.plane_renderer.focal_height_ratios@ == frame_stage(
                &old(self).state,
                player.camera,
            ).ratios,
            final(self).scene() == frame_start(
                old(self).state.framebuffer.width,
                old(self).state.framebuffer.height,
                player.sector_index,
            ),
    {
        self.state.update(&player.camera);
        self.state.framebuffer.fill(BGRA8::clear());
        let width: usize = self.state.framebuffer.width();
        let height: usize = self.state.framebuffer.height();
        self.portal_tree = PortalTree::with_depth(INITIAL_LAYERS, width, height);
        self.sector_renderer.update(&self.state);
        self.sprite_renderer.set_viewport(&self.state);
        self.sprite_renderer.update(&self.state);
        // The sector of the player is seen through the whole screen.
        self.portal_tree.push_node(
            PortalNode {
                tree_depth: 0,
                sector_index: player.sector_index,
                x_min: 0,
                x_max: width,
                depth_min: near(),
                depth_max: near(),
            },
        );
        proof {
            let start = frame_start(width, height, player.sector_index);
            let now = self.scene();
            assert(now.pixels =~= start.pixels);
            assert(now.nodes =~= start.nodes);
            assert(now.rows_min =~~= start.rows_min) by {
                assert forall|d: int, x: int| 0 <= d < 4 && 0 <= x < width implies (#[trigger] self.portal_tree.lo(d, x)) == 0 by {}
            }
            assert(now.rows_max =~~= start.rows_max) by {
                assert forall|d: int, x: int| 0 <= d < 4 && 0 <= x < width implies (#[trigger] self.portal_tree.hi(d, x)) == height by {
                    assert(self.portal_tree.lo(d, x) == 0);
                }
            }
            assert(self.sector_renderer.plane_renderer.focal_height_ratios@ =~= frame_stage(
                &old(self).state,
                player.camera,
            ).ratios);
        }
    }

    /// Draws the sectors, from the first node on, each node in its turn
    /// and with it the nodes that drawing appends.
    fn traverse(&mut self, sectors: &[Sector], textures: &[Texture])
        requires
            old(self).in_frame(sectors@, textures@),
        ensures
            final(self).in_frame(sectors@, textures@),
            final(self).same_lens(old(self)),
            final(self).sprite_renderer == old(self).sprite_renderer,
            forall|stage: &Stage|
                stage.of(&old(self).state) && stage.ratios == old(
                    self,
                ).sector_renderer.plane_renderer.focal_height_ratios@ ==> #[trigger] scene_traversed(
                    old(self).scene(),
                    stage,
                    sectors@,
                    textures@,
                    0,
                ) == final(self).scene(),
    {
        let ghost start = self.scene();
        let mut portal_index: usize = 0;
        while portal_index < self.portal_tree.nodes_len() && portal_index < usize::MAX - 1
            invariant
                self.in_frame(sectors@, textures@),
                self.same_lens(old(self)),
                self.sprite_renderer == old(self).sprite_renderer,
                portal_index <= self.portal_tree.nodes@.len(),
                forall|stage: &Stage|
                    stage.of(&old(self).state) && stage.ratios == old(
                        self,
                    ).sector_renderer.plane_renderer.focal_height_ratios@ ==> #[trigger] scene_traversed(
                        start,
                        stage,
                        sectors@,
                        textures@,
                        0,
                    ) == scene_traversed(
                        self.scene(),
                        stage,
                        sectors@,
                        textures@,
                        portal_index as int,
                    ),
            decreases usize::MAX - portal_index,
        {
            let ghost before = self.scene();
            let ghost before_state = self.state;
            self.sector_renderer.draw_sector(
                &mut self.state,
                &mut self.portal_tree,
                sectors,
                textures,
                portal_index,
            );
            proof {
                assert forall|stage: &Stage|
                    stage.of(&old(self).state) && stage.ratios == old(
                        self,
                    ).sector_renderer.plane_renderer.focal_height_ratios@ implies #[trigger] scene_traversed(
                    start,
                    stage,
                    sectors@,
                    textures@,
                    0,
                ) == scene_traversed(
                    self.scene(),
                    stage,
                    sectors@,
                    textures@,
                    portal_index + 1,
                ) by {
                    assert(stage.of(&before_state));
                    assert(scene_sector(before, stage, sectors@, textures@, portal_index as int)
                        == self.scene());
                    assert(scene_traversed(
                        before,
                        stage,
                        sectors@,
                        textures@,
                        portal_index as int,
                    ) == scene_traversed(
                        self.scene(),
                        stage,
                        sectors@,
                        textures@,
                        portal_index + 1,
                    ));
                }
            }
            portal_index = portal_index + 1;
        }
    }

    /// Draws the sprites in order.
    fn draw_sprites(&mut self, sprites: &[Sprite], textures: &[Texture])
        requires
            old(self).wf(),
            crate::surface::textures_ok(textures@),
            sprites_ok(sprites@, textures@.len() as int),
        ensures
            final(self).wf(),
            final(self).state.same_view(&old(self).state),
            final(self).portal_tree == old(self).portal_tree,
            final(self).state.framebuffer.pixels@ == sprites_drawn(
                old(self).state.framebuffer.pixels@,
                &old(self).state.spec_lens(),
                &old(self).state.frustum,
                old(self).state.framebuffer.width,
                old(self).state.framebuffer.height,
                old(self).portal_tree.nodes@,
                rows_of(old(self).portal_tree.portal_bounds_min@),
                rows_of(old(self).portal_tree.portal_bounds_max@),
                sprites@,
                textures@,
                sprites@.len() as int,
            ),
    {
        let count: usize = sprites.len();
        let mut i: usize = 0;
        while i < count
            invariant
                i <= count,
                count == sprites@.len(),
                self.wf(),
                self.state.same_view(&old(self).state),
                self.state.spec_lens() == old(self).state.spec_lens(),
                self.portal_tree == old(self).portal_tree,
                crate::surface::textures_ok(textures@),
                sprites_ok(sprites@, textures@.len() as int),
                self.state.framebuffer.pixels@ == sprites_drawn(
                    old(self).state.framebuffer.pixels@,
                    &old(self).state.spec_lens(),
                    &old(self).state.frustum,
                    old(self).state.framebuffer.width,
                    old(self).state.framebuffer.height,
                    old(self).portal_tree.nodes@,
                    rows_of(old(self).portal_tree.portal_bounds_min@),
                    rows_of(old(self).portal_tree.portal_bounds_max@),
                    sprites@,
                    textures@,
                    i as int,
                ),
            decreases count - i,
        {
            let sprite = &sprites[i];
            assert(textures@[sprite.texture_data.index as int].wf());
            self.sprite_renderer.draw_sprite(
                &mut self.state,
                &self.portal_tree,
                sprite,
                &textures[sprite.texture_data.index],
            );
            i = i + 1;
        }
    }

    /// Draws one frame as `player` sees it into the framebuffer: the
    /// sectors from that of the player outwards through their portals, then
    /// the sprites, then, if the view asks for it, the outline of every
    /// window.
    pub fn update(
        &mut self,
        player: &Player,
        textures: &[Texture],
        sectors: &[Sector],
        sprites: &[Sprite],
    )
        requires
            old(self).wf(),
            world_ok(sectors@, textures@),
            player.sector_index < sectors@.len(),
            sprites_ok(sprites@, textures@.len() as int),
        ensures
            update_post(old(self), final(self), player, textures@, sectors@, sprites@),
    {
        self.begin_frame(player);
        let ghost begun = *self;
        let ghost stage = frame_stage(&old(self).state, player.camera);
        proof {
            assert(stage.of(&begun.state));
            assert(begun.portal_tree.nodes@ =~= seq![
                root_node(begun.state.framebuffer.width, player.sector_index),
            ]);
        }
        self.traverse(sectors, textures);
        let ghost traversed = *self;
        proof {
            assert(stage.of(&traversed.state));
            assert(scene_traversed(begun.scene(), &stage, sectors@, textures@, 0)
                == traversed.scene());
        }
        self.draw_sprites(sprites, textures);
        proof {
            let scene = traversed.scene();
            assert(self.state.framebuffer.pixels@ == sprites_drawn(
                scene.pixels,
                &stage.lens,
                stage.frustum,
                stage.width,
                stage.height,
                scene.nodes,
                scene.rows_min,
                scene.rows_max,
                sprites@,
                textures@,
                sprites@.len() as int,
            ));
        }
        if self.state.debug {
            self.debug_draw_portals();
        }
    }
}

} // verus!
