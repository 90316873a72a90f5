//! Sprites, drawn column by column inside the windows of their sector.

use vstd::prelude::*;
use crate::colour::BGRA8;
use crate::consts::mip_scale;
use crate::consts::near;
use crate::fixed::Fixed;
use crate::maths::polygon::Polygon;
use crate::maths::vec::Vec2f;
use crate::renderer::framebuffer::Framebuffer;
use crate::renderer::framebuffer::MAX_SIDE;
use crate::renderer::portal::filled_row;
use crate::renderer::portal::PortalNode;
use crate::renderer::portal::PortalTree;
use crate::renderer::scene::rows_of;
use crate::renderer::state::Lens;
use crate::renderer::state::RendererState;
use crate::renderer::util::diminish_lighting;
use crate::renderer::util::light_level;
use crate::renderer::util::mip_level;
use crate::renderer::util::normalise_depth;
use crate::renderer::util::wrap_texel;
use crate::renderer::wall::clamp_column;
use crate::renderer::wall::clamp_row;
use crate::renderer::wall::column_texel;
use crate::renderer::wall::shade_ok;
use crate::renderer::wall::spec_clamp_column;
use crate::renderer::wall::spec_column_texel;
use crate::renderer::wall::spec_wall_tex;
use crate::renderer::wall::wall_tex;
use crate::renderer::wall::window_ok;
use crate::renderer::wall::ColumnShade;
use crate::renderer::wall::RowStepper;
use crate::surface::Sprite;
use crate::textures::Texture;

verus! {

/// The pixels after the first `k` rows of a span of a sprite have been
/// drawn: rows `y_min` to `y_min + k - 1` of column `x`, where a texel
/// that is fully transparent leaves the pixel as it is.
pub open spec fn masked_span_drawn(
    pixels: Seq<BGRA8>,
    width: int,
    texture: &Texture,
    shade: ColumnShade,
    x: int,
    y_min: int,
    rows: RowStepper,
    k: int,
) -> Seq<BGRA8>
    decreases k,
{
    if k <= 0 {
        pixels
    } else {
        let prev = masked_span_drawn(pixels, width, texture, shade, x, y_min, rows, k - 1);
        let colour = spec_column_texel(texture, shade, rows.after(k - 1).v);
        if colour.a != 0 {
            prev.update((y_min + k - 1) * width + x, colour)
        } else {
            prev
        }
    }
}

/// Draws rows `y_min` up to `y_max` of column `x` of a sprite: each pixel
/// is the texel that `rows` selects at that row, darkened, unless that
/// texel is fully transparent.
pub fn rasterise_masked_span(
    framebuffer: &mut Framebuffer,
    texture: &Texture,
    shade: ColumnShade,
    x: usize,
    y_min: usize,
    y_max: usize,
    rows: RowStepper,
)
    requires
        old(framebuffer).wf(),
        shade_ok(texture, shade),
        x < old(framebuffer).width,
        y_max <= old(framebuffer).height,
    ensures
        final(framebuffer).wf(),
        final(framebuffer).width == old(framebuffer).width,
        final(framebuffer).height == old(framebuffer).height,
        final(framebuffer).pixels@ == masked_span_drawn(
            old(framebuffer).pixels@,
            old(framebuffer).width as int,
            texture,
            shade,
            x as int,
            y_min as int,
            rows,
            y_max - y_min,
        ),
{
    let mut rows = rows;
    let ghost rows0 = rows;
    let mut y: usize = y_min;
    while y < y_max
        invariant
            framebuffer.wf(),
            framebuffer.width == old(framebuffer).width,
            framebuffer.height == old(framebuffer).height,
            shade_ok(texture, shade),
            x < framebuffer.width,
            y_max <= framebuffer.height,
            y_min <= y,
            y <= y_max || y_max < y_min,
            y_max < y_min ==> y == y_min,
            rows == rows0.after(y - y_min),
            framebuffer.pixels@ == masked_span_drawn(
                old(framebuffer).pixels@,
                old(framebuffer).width as int,
                texture,
                shade,
                x as int,
                y_min as int,
                rows0,
                y - y_min,
            ),
        decreases y_max - y,
    {
        let colour = column_texel(texture, shade, rows.v);
        if colour.a != 0 {
            framebuffer.set_pixel_unchecked(x, y, colour);
        }
        rows.step_y();
        y = y + 1;
    }
}

/// The quantities of a sprite that change from column to column and from
/// row to row. A sprite has one depth, so its texture coordinates change
/// linearly on the screen.
#[derive(Clone, Copy, Debug, PartialEq, Eq, Structural)]
pub struct SpriteInterpolator {
    pub top_y: Fixed,
    pub bottom_y: Fixed,
    pub u: Fixed,
    pub u_m: Fixed,
    pub v_start: Fixed,
    pub v_m: Fixed,
}

impl SpriteInterpolator {
    pub open spec fn spec_new(
        top_left: Vec2f,
        bottom_right: Vec2f,
        tex_coord_a: Vec2f,
        tex_coord_b: Vec2f,
        x_min: Fixed,
    ) -> SpriteInterpolator {
        let x_delta = bottom_right.x.spec_minus(top_left.x);
        let y_delta = bottom_right.y.spec_minus(top_left.y);
        let u_m = tex_coord_b.x.spec_minus(tex_coord_a.x).spec_over(x_delta);
        SpriteInterpolator {
            top_y: top_left.y,
            bottom_y: bottom_right.y,
            u: tex_coord_a.x.spec_plus(u_m.spec_times(x_min.spec_minus(top_left.x))),
            u_m,
            v_start: tex_coord_a.y,
            v_m: tex_coord_b.y.spec_minus(tex_coord_a.y).spec_over(y_delta),
        }
    }

    /// The interpolator of the sprite between the screen corners
    /// `top_left` and `bottom_right`, set to column `x_min`.
    #[verifier::when_used_as_spec(spec_new)]
    pub fn new(
        top_left: Vec2f,
        bottom_right: Vec2f,
        tex_coord_a: Vec2f,
        tex_coord_b: Vec2f,
        x_min: Fixed,
    ) -> (r: SpriteInterpolator)
        ensures
            r == Self::spec_new(top_left, bottom_right, tex_coord_a, tex_coord_b, x_min),
    {
        let x_delta = bottom_right.x.minus(top_left.x);
        let y_delta = bottom_right.y.minus(top_left.y);
        let u_m = tex_coord_b.x.minus(tex_coord_a.x).over(x_delta);
        SpriteInterpolator {
            top_y: top_left.y,
            bottom_y: bottom_right.y,
            u: tex_coord_a.x.plus(u_m.times(x_min.minus(top_left.x))),
            u_m,
            v_start: tex_coord_a.y,
            v_m: tex_coord_b.y.minus(tex_coord_a.y).over(y_delta),
        }
    }

    pub open spec fn spec_init_y(&self, y_min: usize) -> RowStepper {
        RowStepper {
            v: self.v_start.spec_plus(
                self.v_m.spec_times(Fixed::spec_from_index(y_min).spec_minus(self.top_y)),
            ),
            v_m: self.v_m,
        }
    }

    /// The row stepper of this column, set to row `y_min`.
    #[verifier::when_used_as_spec(spec_init_y)]
    pub fn init_y(&self, y_min: usize) -> (r: RowStepper)
        ensures
            r == self.spec_init_y(y_min),
    {
        let y_clamp_offset = Fixed::from_index(y_min).minus(self.top_y);
        RowStepper { v: self.v_start.plus(self.v_m.times(y_clamp_offset)), v_m: self.v_m }
    }

    pub open spec fn spec_step_x(self) -> SpriteInterpolator {
        SpriteInterpolator { u: self.u.spec_plus(self.u_m), ..self }
    }

    /// Moves one column to the right.
    pub fn step_x(&mut self)
        ensures
            *final(self) == old(self).spec_step_x(),
    {
        self.u = self.u.plus(self.u_m);
    }

    /// The interpolator `n` columns further to the right.
    pub open spec fn stepped(self, n: int) -> SpriteInterpolator
        decreases n,
    {
        if n <= 0 {
            self
        } else {
            self.stepped(n - 1).spec_step_x()
        }
    }

    pub open spec fn spec_shade(&self, texture: &Texture, level: usize, light: u8) -> ColumnShade {
        ColumnShade {
            level,
            scale: mip_scale(level),
            light,
            texture_x: wrap_texel(
                self.u.spec_times(mip_scale(level)).spec_floor(),
                texture.levels@[level as int].width,
            ),
        }
    }

    /// The shade of this column: the level and light of the sprite and the
    /// texel column of this column.
    #[verifier::when_used_as_spec(spec_shade)]
    pub fn shade(&self, texture: &Texture, level: usize, light: u8) -> (r: ColumnShade)
        requires
            texture.wf(),
            level < crate::consts::MIP_LEVELS,
        ensures
            r == self.spec_shade(texture, level, light),
            shade_ok(texture, r),
    {
        let scale = mip_scale(level);
        let width: usize = texture.levels[level].width;
        ColumnShade { level, scale, light, texture_x: wrap_texel(self.u.times(scale).floor(), width) }
    }
}

/// The pixels after the first `n` columns of a sprite that starts at
/// column `x_min`, each drawn inside the clip bounds of its column.
pub open spec fn sprite_columns(
    pixels: Seq<BGRA8>,
    width: int,
    texture: &Texture,
    level: usize,
    light: u8,
    clip_min: Seq<u16>,
    clip_max: Seq<u16>,
    sprite: SpriteInterpolator,
    x_min: int,
    n: int,
) -> Seq<BGRA8>
    decreases n,
{
    if n <= 0 {
        pixels
    } else {
        let s = sprite.stepped(n - 1);
        let x = x_min + n - 1;
        let y_min = clamp_row(s.top_y.spec_to_index(MAX_SIDE), clip_min[x], clip_max[x]);
        let y_max = clamp_row(s.bottom_y.spec_to_index(MAX_SIDE), clip_min[x], clip_max[x]);
        masked_span_drawn(
            sprite_columns(
                pixels,
                width,
                texture,
                level,
                light,
                clip_min,
                clip_max,
                sprite,
                x_min,
                n - 1,
            ),
            width,
            texture,
            s.spec_shade(texture, level, light),
            x,
            y_min as int,
            s.spec_init_y(y_min),
            y_max - y_min,
        )
    }
}

/// The clip bounds of a sprite and the columns between the first and the
/// last window of its sector that it overlaps.
pub struct SpriteClip {
    pub clip_min: Seq<u16>,
    pub clip_max: Seq<u16>,
    pub x_min: int,
    pub x_max: int,
}

/// The row with the `k` entries from column `from` on taken from `source`.
pub open spec fn columns_copied(row: Seq<u16>, source: Seq<u16>, from: int, k: int) -> Seq<u16>
    decreases k,
{
    if k <= 0 {
        row
    } else {
        columns_copied(row, source, from, k - 1).update(from + k - 1, source[from + k - 1])
    }
}

/// The clip after one node: if the node is a window of sector `sector`
/// that overlaps the columns from `sprite_x_min` up to `sprite_x_max`, the
/// clip bounds of the columns of the overlap are those of the window, and
/// the overlap is joined to the columns kept.
pub open spec fn clip_with_node(
    clip: SpriteClip,
    node: PortalNode,
    lo: Seq<u16>,
    hi: Seq<u16>,
    sector: usize,
    sprite_x_min: usize,
    sprite_x_max: usize,
) -> SpriteClip {
    let overlap_x_min = if sprite_x_min > node.x_min {
        sprite_x_min
    } else {
        node.x_min
    };
    let overlap_x_max = if sprite_x_max < node.x_max {
        sprite_x_max
    } else {
        node.x_max
    };
    if node.sector_index != sector || overlap_x_min >= overlap_x_max {
        clip
    } else {
        SpriteClip {
            clip_min: columns_copied(
                clip.clip_min,
                lo,
                overlap_x_min as int,
                overlap_x_max - overlap_x_min,
            ),
            clip_max: columns_copied(
                clip.clip_max,
                hi,
                overlap_x_min as int,
                overlap_x_max - overlap_x_min,
            ),
            x_min: if clip.x_min < overlap_x_min {
                clip.x_min
            } else {
                overlap_x_min as int
            },
            x_max: if clip.x_max > overlap_x_max {
                clip.x_max
            } else {
                overlap_x_max as int
            },
        }
    }
}

/// The clip after the first `n` nodes of the tree.
pub open spec fn clip_gathered(
    clip: SpriteClip,
    nodes: Seq<PortalNode>,
    rows_min: Seq<Seq<u16>>,
    rows_max: Seq<Seq<u16>>,
    sector: usize,
    sprite_x_min: usize,
    sprite_x_max: usize,
    n: int,
) -> SpriteClip
    decreases n,
{
    if n <= 0 {
        clip
    } else {
        clip_with_node(
            clip_gathered(
                clip,
                nodes,
                rows_min,
                rows_max,
                sector,
                sprite_x_min,
                sprite_x_max,
                n - 1,
            ),
            nodes[n - 1],
            rows_min[nodes[n - 1].tree_depth as int],
            rows_max[nodes[n - 1].tree_depth as int],
            sector,
            sprite_x_min,
            sprite_x_max,
        )
    }
}

/// What is needed to draw a sprite that is in view.
#[derive(Clone, Copy, Debug, PartialEq, Eq, Structural)]
pub struct SpriteJob {
    pub top_left: Vec2f,
    pub bottom_right: Vec2f,
    pub tex_coord_a: Vec2f,
    pub tex_coord_b: Vec2f,
    pub level: usize,
    pub light: u8,
    pub x_min: usize,
    pub x_max: usize,
}

pub open spec fn spec_prepare_sprite(
    lens: &Lens,
    frustum: &Polygon,
    width: usize,
    height: usize,
    sprite: &Sprite,
) -> Option<SpriteJob> {
    let vs = lens.spec_transform_view(sprite.position);
    let depth = vs.y;
    let half = Vec2f { x: sprite.width.spec_half(), y: Fixed::spec_zero() };
    let vs_a = vs.spec_minus(half);
    let vs_b = vs.spec_plus(half);
    if depth.raw <= near().raw || !RendererState::spec_in_view(frustum, vs_a, vs_b) {
        None
    } else {
        let top_left = lens.spec_project_screen_space(vs_a, sprite.height);
        let bottom_right = lens.spec_project_screen_space(vs_b, Fixed::spec_zero());
        if bottom_right.0.y.raw < 0 || top_left.0.y.raw > Fixed::spec_from_index(height).raw {
            None
        } else {
            let tex = spec_wall_tex(
                sprite.texture_data,
                Vec2f::spec_zero(),
                Vec2f { x: sprite.width, y: sprite.height },
            );
            let normal_depth = normalise_depth(depth);
            Some(
                SpriteJob {
                    top_left: top_left.0,
                    bottom_right: bottom_right.0,
                    tex_coord_a: tex.0,
                    tex_coord_b: tex.1,
                    level: mip_level(normal_depth, Fixed::spec_zero()),
                    light: light_level(diminish_lighting(normal_depth)),
                    x_min: spec_clamp_column(top_left.0.x.spec_to_index(MAX_SIDE), 0, width),
                    x_max: spec_clamp_column(bottom_right.0.x.spec_to_index(MAX_SIDE), 0, width),
                },
            )
        }
    }
}

/// Takes a sprite from the world to the screen: to view space, as a
/// segment of the width of the sprite that faces the eye; out if it lies
/// at or before the near plane or does not overlap the frustum; projected
/// at its top left and bottom right; out if it lies above or below the
/// screen; else its corners, texture coordinates, mip level and light.
#[verifier::when_used_as_spec(spec_prepare_sprite)]
pub fn prepare_sprite(
    lens: &Lens,
    frustum: &Polygon,
    width: usize,
    height: usize,
    sprite: &Sprite,
) -> (r: Option<SpriteJob>)
    ensures
        r == spec_prepare_sprite(lens, frustum, width, height, sprite),
        r is Some ==> r.unwrap().x_min <= width && r.unwrap().x_max <= width
            && r.unwrap().level < crate::consts::MIP_LEVELS,
{
    let vs = lens.transform_view(sprite.position);
    let depth = vs.y;
    // The sprite always faces the eye.
    let half = Vec2f { x: sprite.width.half(), y: Fixed::zero() };
    let vs_a = vs.minus(half);
    let vs_b = vs.plus(half);
    if depth.raw <= near().raw || !RendererState::in_view(frustum, vs_a, vs_b) {
        return None;
    }
    let top_left = lens.project_screen_space(vs_a, sprite.height);
    let bottom_right = lens.project_screen_space(vs_b, Fixed::zero());
    if bottom_right.0.y.raw < 0 || top_left.0.y.raw > Fixed::from_index(height).raw {
        return None;
    }
    let tex = wall_tex(
        sprite.texture_data,
        Vec2f::zero(),
        Vec2f { x: sprite.width, y: sprite.height },
    );
    let normal_depth = normalise_depth(depth);
    Some(
        SpriteJob {
            top_left: top_left.0,
            bottom_right: bottom_right.0,
            tex_coord_a: tex.0,
            tex_coord_b: tex.1,
            level: mip_level(normal_depth, Fixed::zero()),
            light: light_level(diminish_lighting(normal_depth)),
            x_min: clamp_column(top_left.0.x.to_index(MAX_SIDE), 0, width),
            x_max: clamp_column(bottom_right.0.x.to_index(MAX_SIDE), 0, width),
        },
    )
}

/// Keeps, for each screen column, the rows in which the sprite being drawn
/// may be seen.
pub struct SpriteRenderer {
    pub clip_min: Vec<u16>,
    pub clip_max: Vec<u16>,
}

/// The pixels after a sprite has been drawn, and the clip bounds it was
/// drawn inside.
pub struct SpriteDrawn {
    pub pixels: Seq<BGRA8>,
    pub clip_min: Seq<u16>,
    pub clip_max: Seq<u16>,
}

/// What drawing a sprite does: nothing, if the sprite is out of view; else
/// the clip bounds are emptied and then gathered from the windows of the
/// sector of the sprite, and the columns of the sprite between the first
/// and the last such window are drawn inside them.
pub open spec fn sprite_drawn(
    pixels: Seq<BGRA8>,
    clip_min: Seq<u16>,
    clip_max: Seq<u16>,
    lens: &Lens,
    frustum: &Polygon,
    width: usize,
    height: usize,
    nodes: Seq<PortalNode>,
    rows_min: Seq<Seq<u16>>,
    rows_max: Seq<Seq<u16>>,
    sprite: &Sprite,
    texture: &Texture,
) -> SpriteDrawn {
    match spec_prepare_sprite(lens, frustum, width, height, sprite) {
        None => SpriteDrawn { pixels, clip_min, clip_max },
        Some(job) => {
            let clip = clip_gathered(
                SpriteClip {
                    clip_min: Seq::new(width as nat, |x: int| 0u16),
                    clip_max: Seq::new(width as nat, |x: int| 0u16),
                    x_min: width as int,
                    x_max: 0,
                },
                nodes,
                rows_min,
                rows_max,
                sprite.sector_index,
                job.x_min,
                job.x_max,
                nodes.len() as int,
            );
            SpriteDrawn {
                pixels: if clip.x_min >= clip.x_max {
                    pixels
                } else {
                    sprite_columns(
                        pixels,
                        width as int,
                        texture,
                        job.level,
                        job.light,
                        clip.clip_min,
                        clip.clip_max,
                        SpriteInterpolator::spec_new(
                            job.top_left,
                            job.bottom_right,
                            job.tex_coord_a,
                            job.tex_coord_b,
                            Fixed::spec_from_index(clip.x_min as usize),
                        ),
                        clip.x_min,
                        clip.x_max - clip.x_min,
                    )
                },
                clip_min: clip.clip_min,
                clip_max: clip.clip_max,
            }
        },
    }
}

/// The pixels after a sprite has been drawn.
pub open spec fn sprite_pixels(
    pixels: Seq<BGRA8>,
    lens: &Lens,
    frustum: &Polygon,
    width: usize,
    height: usize,
    nodes: Seq<PortalNode>,
    rows_min: Seq<Seq<u16>>,
    rows_max: Seq<Seq<u16>>,
    sprite: &Sprite,
    texture: &Texture,
) -> Seq<BGRA8> {
    sprite_drawn(
        pixels,
        Seq::empty(),
        Seq::empty(),
        lens,
        frustum,
        width,
        height,
        nodes,
        rows_min,
        rows_max,
        sprite,
        texture,
    ).pixels
}

impl SpriteRenderer {
    /// Both rows have one entry per screen column.
    pub open spec fn wf(&self, width: int) -> bool {
        self.clip_min@.len() == width && self.clip_max@.len() == width
    }

    /// Clip bounds for a screen of the size of `state`: the full height in
    /// every column.
    pub fn new(state: &RendererState) -> (r: SpriteRenderer)
        requires
            state.framebuffer.wf(),
        ensures
            r.wf(state.framebuffer.width as int),
            forall|x: int|
                0 <= x < state.framebuffer.width ==> r.clip_min@[x] == 0 && r.clip_max@[x]
                    == state.framebuffer.height,
    {
        SpriteRenderer {
            clip_min: filled_row(state.framebuffer.width(), 0),
            clip_max: filled_row(state.framebuffer.width(), state.framebuffer.height() as u16),
        }
    }

    /// Takes the screen size of `state`: the clip bounds are made anew, the
    /// full height in every column.
    pub fn set_viewport(&mut self, state: &RendererState)
        requires
            state.framebuffer.wf(),
        ensures
            final(self).wf(state.framebuffer.width as int),
            forall|x: int|
                0 <= x < state.framebuffer.width ==> final(self).clip_min@[x] == 0
                    && final(self).clip_max@[x] == state.framebuffer.height,
    {
        self.clip_min = filled_row(state.framebuffer.width(), 0);
        self.clip_max = filled_row(state.framebuffer.width(), state.framebuffer.height() as u16);
    }

    /// Nothing is kept from frame to frame.
    pub fn update(&mut self, state: &RendererState)
        ensures
            *final(self) == *old(self),
    {
    }

    /// Takes the clip bounds of the columns from `from` up to `to` from
    /// the window rows `lo` and `hi`.
    fn copy_bounds(&mut self, lo: &[u16], hi: &[u16], from: usize, to: usize, Ghost(height): Ghost<int>)
        requires
            old(self).wf(lo@.len() as int),
            lo@.len() == hi@.len(),
            from <= to <= lo@.len(),
            window_ok(old(self).clip_min@, old(self).clip_max@, 0, lo@.len() as int, height),
            window_ok(lo@, hi@, 0, lo@.len() as int, height),
        ensures
            final(self).wf(lo@.len() as int),
            window_ok(final(self).clip_min@, final(self).clip_max@, 0, lo@.len() as int, height),
            final(self).clip_min@ == columns_copied(
                old(self).clip_min@,
                lo@,
                from as int,
                to - from,
            ),
            final(self).clip_max@ == columns_copied(
                old(self).clip_max@,
                hi@,
                from as int,
                to - from,
            ),
    {
        let mut x: usize = from;
        while x < to
            invariant
                from <= x <= to <= lo@.len(),
                lo@.len() == hi@.len(),
                self.wf(lo@.len() as int),
                window_ok(self.clip_min@, self.clip_max@, 0, lo@.len() as int, height),
                window_ok(lo@, hi@, 0, lo@.len() as int, height),
                self.clip_min@ == columns_copied(old(self).clip_min@, lo@, from as int, x - from),
                self.clip_max@ == columns_copied(old(self).clip_max@, hi@, from as int, x - from),
            decreases to - x,
        {
            let ghost before_min = self.clip_min@;
            let ghost before_max = self.clip_max@;
            let low: u16 = lo[x];
            let high: u16 = hi[x];
            assert(low <= high && high <= height) by {
                assert(lo@[x as int] <= hi@[x as int]);
            }
            self.clip_min[x] = low;
            self.clip_max[x] = high;
            proof {
                assert forall|c: int| 0 <= c < lo@.len() implies (#[trigger] self.clip_min@[c])
                    <= self.clip_max@[c] && self.clip_max@[c] <= height by {
                    assert(before_min[c] <= before_max[c] && before_max[c] <= height);
                }
            }
            x = x + 1;
        }
    }

    /// Draws columns `x_min` up to `x_max` of a sprite, each inside the
    /// clip bounds of its column.
    pub fn rasterise_sprite(
        &self,
        framebuffer: &mut Framebuffer,
        sprite: SpriteInterpolator,
        texture: &Texture,
        level: usize,
        light: u8,
        x_min: usize,
        x_max: usize,
    )
        requires
            old(framebuffer).wf(),
            self.wf(old(framebuffer).width as int),
            texture.wf(),
            level < crate::consts::MIP_LEVELS,
            x_max <= old(framebuffer).width,
            window_ok(
                self.clip_min@,
                self.clip_max@,
                0,
                old(framebuffer).width as int,
                old(framebuffer).height as int,
            ),
        ensures
            final(framebuffer).wf(),
            final(framebuffer).width == old(framebuffer).width,
            final(framebuffer).height == old(framebuffer).height,
            final(framebuffer).pixels@ == sprite_columns(
                old(framebuffer).pixels@,
                old(framebuffer).width as int,
                texture,
                level,
                light,
                self.clip_min@,
                self.clip_max@,
                sprite,
                x_min as int,
                x_max - x_min,
            ),
    {
        let mut sprite = sprite;
        let ghost sprite0 = sprite;
        let mut x: usize = x_min;
        while x < x_max
            invariant
                x_min <= x,
                x <= x_max || x_max < x_min,
                x_max < x_min ==> x == x_min,
                x_max <= framebuffer.width,
                framebuffer.wf(),
                framebuffer.width == old(framebuffer).width,
                framebuffer.height == old(framebuffer).height,
                self.wf(framebuffer.width as int),
                texture.wf(),
                level < crate::consts::MIP_LEVELS,
                window_ok(
                    self.clip_min@,
                    self.clip_max@,
                    0,
                    framebuffer.width as int,
                    framebuffer.height as int,
                ),
                sprite == sprite0.stepped(x - x_min),
                framebuffer.pixels@ == sprite_columns(
                    old(framebuffer).pixels@,
                    old(framebuffer).width as int,
                    texture,
                    level,
                    light,
                    self.clip_min@,
                    self.clip_max@,
                    sprite0,
                    x_min as int,
                    x - x_min,
                ),
            decreases x_max - x,
        {
            let min_bound: u16 = self.clip_min[x];
            let max_bound: u16 = self.clip_max[x];
            assert(min_bound <= max_bound && max_bound <= framebuffer.height);
            let y_min: usize = clamp_row(sprite.top_y.to_index(MAX_SIDE), min_bound, max_bound);
            let y_max: usize = clamp_row(sprite.bottom_y.to_index(MAX_SIDE), min_bound, max_bound);
            let shade = sprite.shade(texture, level, light);
            let rows = sprite.init_y(y_min);
            rasterise_masked_span(framebuffer, texture, shade, x, y_min, y_max, rows);
            sprite.step_x();
            x = x + 1;
        }
    }

    /// Draws a sprite inside the windows of its sector that it overlaps. A
    /// sprite that is out of view, or that overlaps no window of its
    /// sector, changes no pixel.
    pub fn draw_sprite(
        &mut self,
        state: &mut RendererState,
        portals: &PortalTree,
        sprite: &Sprite,
        texture: &Texture,
    )
        requires
            old(state).framebuffer.wf(),
            portals.wf(),
            portals.screen_width == old(state).framebuffer.width,
            portals.screen_height == old(state).framebuffer.height,
            old(self).wf(old(state).framebuffer.width as int),
            texture.wf(),
        ensures
            final(state).framebuffer.wf(),
            final(state).same_view(old(state)),
            final(self).wf(old(state).framebuffer.width as int),
            ({
                let drawn = sprite_drawn(
                    old(state).framebuffer.pixels@,
                    old(self).clip_min@,
                    old(self).clip_max@,
                    &old(state).spec_lens(),
                    &old(state).frustum,
                    old(state).framebuffer.width,
                    old(state).framebuffer.height,
                    portals.nodes@,
                    rows_of(portals.portal_bounds_min@),
                    rows_of(portals.portal_bounds_max@),
                    sprite,
                    texture,
                );
                &&& final(state).framebuffer.pixels@ == drawn.pixels
                &&& final(self).clip_min@ == drawn.clip_min
                &&& final(self).clip_max@ == drawn.clip_max
            }),
            final(state).framebuffer.pixels@ == sprite_pixels(
                old(state).framebuffer.pixels@,
                &old(state).spec_lens(),
                &old(state).frustum,
                old(state).framebuffer.width,
                old(state).framebuffer.height,
                portals.nodes@,
                rows_of(portals.portal_bounds_min@),
                rows_of(portals.portal_bounds_max@),
                sprite,
                texture,
            ),
    {
        let lens = state.lens();
        let width: usize = state.framebuffer.width();
        let height: usize = state.framebuffer.height();
        let job = match prepare_sprite(&lens, &state.frustum, width, height, sprite) {
            Some(job) => job,
            None => {
                return ;
            },
        };
        // The sprite may be seen nowhere until a window shows it.
        self.clip_min = filled_row(width, 0);
        self.clip_max = filled_row(width, 0);
        let mut portals_x_min: usize = width;
        let mut portals_x_max: usize = 0;
        let ghost start = SpriteClip {
            clip_min: self.clip_min@,
            clip_max: self.clip_max@,
            x_min: width as int,
            x_max: 0,
        };
        proof {
            assert(start.clip_min =~= Seq::new(width as nat, |x: int| 0u16));
            assert(start.clip_max =~= Seq::new(width as nat, |x: int| 0u16));
        }
        let count: usize = portals.nodes.len();
        let mut i: usize = 0;
        while i < count
            invariant
                i <= count,
                count == portals.nodes@.len(),
                portals.wf(),
                portals.screen_width == width,
                portals.screen_height == height,
                self.wf(width as int),
                job.x_min <= width,
                job.x_max <= width,
                portals_x_min <= width,
                portals_x_max <= width,
                window_ok(self.clip_min@, self.clip_max@, 0, width as int, height as int),
                (SpriteClip {
                    clip_min: self.clip_min@,
                    clip_max: self.clip_max@,
                    x_min: portals_x_min as int,
                    x_max: portals_x_max as int,
                }) == clip_gathered(
                    start,
                    portals.nodes@,
                    rows_of(portals.portal_bounds_min@),
                    rows_of(portals.portal_bounds_max@),
                    sprite.sector_index,
                    job.x_min,
                    job.x_max,
                    i as int,
                ),
            decreases count - i,
        {
            let portal: PortalNode = portals.nodes[i];
            assert(portals.node_ok(portal));
            if portal.sector_index == sprite.sector_index {
                let overlap_x_min: usize = if job.x_min > portal.x_min {
                    job.x_min
                } else {
                    portal.x_min
                };
                let overlap_x_max: usize = if job.x_max < portal.x_max {
                    job.x_max
                } else {
                    portal.x_max
                };
                if overlap_x_min < overlap_x_max {
                    let bounds = portals.get_bounds(portal.tree_depth);
                    proof {
                        assert forall|c: int| 0 <= c < width implies (#[trigger] bounds.0@[c])
                            <= bounds.1@[c] && bounds.1@[c] <= height by {
                            assert(portals.lo(portal.tree_depth as int, c) <= portals.hi(
                                portal.tree_depth as int,
                                c,
                            ));
                        }
                    }
                    self.copy_bounds(
                        bounds.0,
                        bounds.1,
                        overlap_x_min,
                        overlap_x_max,
                        Ghost(height as int),
                    );
                    if overlap_x_min < portals_x_min {
                        portals_x_min = overlap_x_min;
                    }
                    if overlap_x_max > portals_x_max {
                        portals_x_max = overlap_x_max;
                    }
                }
            }
            i = i + 1;
        }
        // No window of the sector shows the sprite.
        if portals_x_min >= portals_x_max {
            return ;
        }
        let sprite_lerp = SpriteInterpolator::new(
            job.top_left,
            job.bottom_right,
            job.tex_coord_a,
            job.tex_coord_b,
            Fixed::from_index(portals_x_min),
        );
        self.rasterise_sprite(
            &mut state.framebuffer,
            sprite_lerp,
            texture,
            job.level,
            job.light,
            portals_x_min,
            portals_x_max,
        );
    }
}

} // verus!
