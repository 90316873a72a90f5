//! Walls, drawn column by column.

use vstd::prelude::*;
use crate::bitmap::lemma_cell_index;
use crate::bitmap::lemma_cell_index_injective;
use crate::colour::BGRA8;
use crate::consts::mip_scale;
use crate::consts::MIP_LEVELS;
use crate::fixed::Fixed;
use crate::maths::vec::Vec2f;
use crate::renderer::framebuffer::Framebuffer;
use crate::renderer::framebuffer::MAX_SIDE;
use crate::renderer::util::diminish_lighting;
use crate::renderer::util::light_level;
use crate::renderer::util::mip_level;
use crate::renderer::util::normalise_depth;
use crate::renderer::util::wrap_texel;
use crate::consts::near;
use crate::maths::polygon::Polygon;
use crate::renderer::portal::filled_row;
use crate::renderer::portal::open_hi;
use crate::renderer::portal::open_lo;
use crate::renderer::portal::raised;
use crate::renderer::portal::PortalNode;
use crate::renderer::portal::PortalTree;
use crate::renderer::state::Lens;
use crate::renderer::state::RendererState;
use crate::surface::Sector;
use crate::surface::Wall;
use crate::surface::WallTexture;
use crate::textures::grid_pixel;
use crate::textures::Texture;

verus! {

/// `v` limited to the interval from `lo` to `hi`.
pub open spec fn spec_clamp_row(v: usize, lo: u16, hi: u16) -> usize {
    if v < lo {
        lo as usize
    } else if v > hi {
        hi as usize
    } else {
        v
    }
}

/// `v` limited to the interval from `lo` to `hi`.
#[verifier::when_used_as_spec(spec_clamp_row)]
pub fn clamp_row(v: usize, lo: u16, hi: u16) -> (r: usize)
    ensures
        r == spec_clamp_row(v, lo, hi),
        lo <= hi ==> lo <= r <= hi,
{
    if v < lo as usize {
        lo as usize
    } else if v > hi as usize {
        hi as usize
    } else {
        v
    }
}

/// The texture coordinate down a column, stepped row by row.
#[derive(Clone, Copy, Debug, PartialEq, Eq, Structural)]
pub struct RowStepper {
    pub v: Fixed,
    /// Change of `v` from one row to the next.
    pub v_m: Fixed,
}

impl RowStepper {
    pub open spec fn spec_step_y(self) -> RowStepper {
        RowStepper { v: self.v.spec_plus(self.v_m), v_m: self.v_m }
    }

    /// Moves one row down.
    pub fn step_y(&mut self)
        ensures
            *final(self) == old(self).spec_step_y(),
    {
        self.v = self.v.plus(self.v_m);
    }

    /// The stepper `k` rows further down.
    pub open spec fn after(self, k: int) -> RowStepper
        decreases k,
    {
        if k <= 0 {
            self
        } else {
            self.after(k - 1).spec_step_y()
        }
    }
}

/// What is the same for every pixel of one column of a wall or sprite.
#[derive(Clone, Copy, Debug, PartialEq, Eq, Structural)]
pub struct ColumnShade {
    pub level: usize,
    pub scale: Fixed,
    pub light: u8,
    pub texture_x: usize,
}

/// The colour of one pixel of a column: the texel in column
/// `shade.texture_x` and the row that `v` selects, darkened by the light of
/// the column.
pub open spec fn spec_column_texel(texture: &Texture, shade: ColumnShade, v: Fixed) -> BGRA8 {
    texture.texel(
        shade.texture_x as int,
        wrap_texel(
            v.spec_times(shade.scale).spec_floor(),
            texture.levels@[shade.level as int].height,
        ) as int,
        shade.level as int,
    ).spec_darken(shade.light)
}

/// The texture and the shade fit: the level exists and the texel column
/// lies inside it.
pub open spec fn shade_ok(texture: &Texture, shade: ColumnShade) -> bool {
    &&& texture.wf()
    &&& shade.level < MIP_LEVELS
    &&& shade.texture_x < texture.levels@[shade.level as int].width
}

/// Computes [`spec_column_texel`].
#[verifier::when_used_as_spec(spec_column_texel)]
pub fn column_texel(texture: &Texture, shade: ColumnShade, v: Fixed) -> (c: BGRA8)
    requires
        shade_ok(texture, shade),
    ensures
        c == spec_column_texel(texture, shade, v),
{
    let height: usize = texture.levels[shade.level].height;
    let texture_y: usize = wrap_texel(v.times(shade.scale).floor(), height);
    texture.sample(shade.texture_x, texture_y, shade.level).darken(shade.light)
}

/// The colour of one pixel of a column of a wall: the texel of the column,
/// darkened, and opaque whatever the texture.
pub open spec fn spec_wall_texel(texture: &Texture, shade: ColumnShade, v: Fixed) -> BGRA8 {
    spec_column_texel(texture, shade, v).spec_opaque()
}

/// Computes [`spec_wall_texel`].
#[verifier::when_used_as_spec(spec_wall_texel)]
pub fn wall_texel(texture: &Texture, shade: ColumnShade, v: Fixed) -> (c: BGRA8)
    requires
        shade_ok(texture, shade),
    ensures
        c == spec_wall_texel(texture, shade, v),
        c.a == 0xFF,
{
    column_texel(texture, shade, v).opaque()
}

/// The pixels after the first `k` rows of a span have been drawn: rows
/// `y_min` to `y_min + k - 1` of column `x`.
pub open spec fn span_drawn(
    pixels: Seq<BGRA8>,
    width: int,
    texture: &Texture,
    shade: ColumnShade,
    x: int,
    y_min: int,
    rows: RowStepper,
    k: int,
) -> Seq<BGRA8>
    decreases k,
{
    if k <= 0 {
        pixels
    } else {
        span_drawn(pixels, width, texture, shade, x, y_min, rows, k - 1).update(
            (y_min + k - 1) * width + x,
            spec_wall_texel(texture, shade, rows.after(k - 1).v),
        )
    }
}

/// A span changes no pixel outside rows `y_min` to `y_min + k - 1` of
/// column `x`, and keeps the number of pixels.
pub proof fn lemma_span_frame(
    pixels: Seq<BGRA8>,
    width: int,
    height: int,
    texture: &Texture,
    shade: ColumnShade,
    x: int,
    y_min: int,
    rows: RowStepper,
    k: int,
)
    requires
        0 <= x < width,
        0 <= y_min,
        k >= 0,
        y_min + k <= height,
        pixels.len() == width * height,
    ensures
        span_drawn(pixels, width, texture, shade, x, y_min, rows, k).len() == pixels.len(),
        forall|i: int, j: int|
            0 <= i < width && 0 <= j < height && !(i == x && y_min <= j < y_min + k)
                ==> #[trigger] grid_pixel(
                span_drawn(pixels, width, texture, shade, x, y_min, rows, k),
                width,
                i,
                j,
            ) == grid_pixel(pixels, width, i, j),
        forall|j: int|
            y_min <= j < y_min + k ==> #[trigger] grid_pixel(
                span_drawn(pixels, width, texture, shade, x, y_min, rows, k),
                width,
                x,
                j,
            ) == spec_wall_texel(texture, shade, rows.after(j - y_min).v),
    decreases k,
{
    if k > 0 {
        lemma_span_frame(pixels, width, height, texture, shade, x, y_min, rows, k - 1);
        let prev = span_drawn(pixels, width, texture, shade, x, y_min, rows, k - 1);
        let now = span_drawn(pixels, width, texture, shade, x, y_min, rows, k);
        let y = y_min + k - 1;
        lemma_cell_index(x, y, width, height);
        assert forall|i: int, j: int|
            0 <= i < width && 0 <= j < height && !(i == x && y_min <= j < y_min + k) implies #[trigger] grid_pixel(
            now,
            width,
            i,
            j,
        ) == grid_pixel(pixels, width, i, j) by {
            lemma_cell_index(i, j, width, height);
            if j * width + i == y * width + x {
                lemma_cell_index_injective(i, j, x, y, width);
            }
            assert(grid_pixel(prev, width, i, j) == grid_pixel(pixels, width, i, j));
        }
        assert forall|j: int| y_min <= j < y_min + k implies #[trigger] grid_pixel(
            now,
            width,
            x,
            j,
        ) == spec_wall_texel(texture, shade, rows.after(j - y_min).v) by {
            lemma_cell_index(x, j, width, height);
            if j < y {
                if j * width + x == y * width + x {
                    lemma_cell_index_injective(x, j, x, y, width);
                }
                assert(grid_pixel(prev, width, x, j) == spec_wall_texel(
                    texture,
                    shade,
                    rows.after(j - y_min).v,
                ));
            }
        }
    }
}

/// Draws rows `y_min` up to `y_max` of column `x`: each pixel is the texel
/// that `rows` selects at that row, darkened and opaque.
pub fn rasterise_span(
    framebuffer: &mut Framebuffer,
    texture: &Texture,
    shade: ColumnShade,
    x: usize,
    y_min: usize,
    y_max: usize,
    rows: RowStepper,
)
    requires
        old(framebuffer).wf(),
        shade_ok(texture, shade),
        x < old(framebuffer).width,
        y_max <= old(framebuffer).height,
    ensures
        final(framebuffer).wf(),
        final(framebuffer).width == old(framebuffer).width,
        final(framebuffer).height == old(framebuffer).height,
        final(framebuffer).pixels@ == span_drawn(
            old(framebuffer).pixels@,
            old(framebuffer).width as int,
            texture,
            shade,
            x as int,
            y_min as int,
            rows,
            y_max - y_min,
        ),
{
    let mut rows = rows;
    let ghost rows0 = rows;
    let mut y: usize = y_min;
    while y < y_max
        invariant
            framebuffer.wf(),
            framebuffer.width == old(framebuffer).width,
            framebuffer.height == old(framebuffer).height,
            shade_ok(texture, shade),
            x < framebuffer.width,
            y_max <= framebuffer.height,
            y_min <= y,
            y <= y_max || y_max < y_min,
            y_max < y_min ==> y == y_min,
            rows == rows0.after(y - y_min),
            framebuffer.pixels@ == span_drawn(
                old(framebuffer).pixels@,
                old(framebuffer).width as int,
                texture,
                shade,
                x as int,
                y_min as int,
                rows0,
                y - y_min,
            ),
        decreases y_max - y,
    {
        let colour = wall_texel(texture, shade, rows.v);
        framebuffer.set_pixel_unchecked(x, y, colour);
        rows.step_y();
        y = y + 1;
    }
}

/// The quantities of a wall that change linearly from column to column,
/// each with its change per column, and the texture rows of its top and
/// bottom.
#[derive(Clone, Copy, Debug, PartialEq, Eq, Structural)]
pub struct WallInterpolator {
    /// Reciprocal of the depth.
    pub inv_depth: Fixed,
    pub top_y: Fixed,
    pub bottom_y: Fixed,
    /// Texture column over depth.
    pub u_depth: Fixed,
    pub inv_depth_m: Fixed,
    pub top_y_m: Fixed,
    pub bottom_y_m: Fixed,
    pub u_depth_m: Fixed,
    /// Texture row at the top of the wall.
    pub v_start: Fixed,
    /// Texture rows from the top to the bottom of the wall.
    pub v_delta: Fixed,
}

/// One end of a wall on the screen.
#[derive(Clone, Copy, Debug, PartialEq, Eq, Structural)]
pub struct WallEnd {
    /// Screen column.
    pub x: Fixed,
    /// Screen row of the top.
    pub top_y: Fixed,
    /// Screen row of the bottom.
    pub bottom_y: Fixed,
    /// Texture coordinates: `x` along the wall at this end, `y` at the top
    /// for the first end and at the bottom for the second.
    pub tex: Vec2f,
    pub inv_depth: Fixed,
}

impl WallInterpolator {
    pub open spec fn spec_new(a: WallEnd, b: WallEnd, x_min: Fixed) -> WallInterpolator {
        let x_delta = b.x.spec_minus(a.x);
        let u_depth_a = a.tex.x.spec_times(a.inv_depth);
        let u_depth_b = b.tex.x.spec_times(b.inv_depth);
        let inv_depth_m = b.inv_depth.spec_minus(a.inv_depth).spec_over(x_delta);
        let top_y_m = b.top_y.spec_minus(a.top_y).spec_over(x_delta);
        let bottom_y_m = b.bottom_y.spec_minus(a.bottom_y).spec_over(x_delta);
        let u_depth_m = u_depth_b.spec_minus(u_depth_a).spec_over(x_delta);
        if a.inv_depth.raw < b.inv_depth.raw {
            let off = x_min.spec_minus(a.x);
            WallInterpolator {
                inv_depth: a.inv_depth.spec_plus(inv_depth_m.spec_times(off)),
                top_y: a.top_y.spec_plus(top_y_m.spec_times(off)),
                bottom_y: a.bottom_y.spec_plus(bottom_y_m.spec_times(off)),
                u_depth: u_depth_a.spec_plus(u_depth_m.spec_times(off)),
                inv_depth_m,
                top_y_m,
                bottom_y_m,
                u_depth_m,
                v_start: a.tex.y,
                v_delta: b.tex.y.spec_minus(a.tex.y),
            }
        } else {
            let off = b.x.spec_minus(x_min);
            WallInterpolator {
                inv_depth: b.inv_depth.spec_minus(inv_depth_m.spec_times(off)),
                top_y: b.top_y.spec_minus(top_y_m.spec_times(off)),
                bottom_y: b.bottom_y.spec_minus(bottom_y_m.spec_times(off)),
                u_depth: u_depth_b.spec_minus(u_depth_m.spec_times(off)),
                inv_depth_m,
                top_y_m,
                bottom_y_m,
                u_depth_m,
                v_start: a.tex.y,
                v_delta: b.tex.y.spec_minus(a.tex.y),
            }
        }
    }

    /// The interpolator of the wall between the ends `a` and `b`, set to
    /// column `x_min`. The texture column is interpolated over depth so
    /// that it is right in perspective. The start values are reckoned from
    /// the end that lies deeper, which the near plane has not moved.
    #[verifier::when_used_as_spec(spec_new)]
    pub fn new(a: WallEnd, b: WallEnd, x_min: Fixed) -> (r: WallInterpolator)
        ensures
            r == Self::spec_new(a, b, x_min),
    {
        let x_delta = b.x.minus(a.x);
        let u_depth_a = a.tex.x.times(a.inv_depth);
        let u_depth_b = b.tex.x.times(b.inv_depth);
        let inv_depth_m = b.inv_depth.minus(a.inv_depth).over(x_delta);
        let top_y_m = b.top_y.minus(a.top_y).over(x_delta);
        let bottom_y_m = b.bottom_y.minus(a.bottom_y).over(x_delta);
        let u_depth_m = u_depth_b.minus(u_depth_a).over(x_delta);
        if a.inv_depth.raw < b.inv_depth.raw {
            let off = x_min.minus(a.x);
            WallInterpolator {
                inv_depth: a.inv_depth.plus(inv_depth_m.times(off)),
                top_y: a.top_y.plus(top_y_m.times(off)),
                bottom_y: a.bottom_y.plus(bottom_y_m.times(off)),
                u_depth: u_depth_a.plus(u_depth_m.times(off)),
                inv_depth_m,
                top_y_m,
                bottom_y_m,
                u_depth_m,
                v_start: a.tex.y,
                v_delta: b.tex.y.minus(a.tex.y),
            }
        } else {
            let off = b.x.minus(x_min);
            WallInterpolator {
                inv_depth: b.inv_depth.minus(inv_depth_m.times(off)),
                top_y: b.top_y.minus(top_y_m.times(off)),
                bottom_y: b.bottom_y.minus(bottom_y_m.times(off)),
                u_depth: u_depth_b.minus(u_depth_m.times(off)),
                inv_depth_m,
                top_y_m,
                bottom_y_m,
                u_depth_m,
                v_start: a.tex.y,
                v_delta: b.tex.y.minus(a.tex.y),
            }
        }
    }

    pub open spec fn spec_init_y(&self, y_min: usize) -> RowStepper {
        let v_m = self.v_delta.spec_over(self.bottom_y.spec_minus(self.top_y));
        RowStepper {
            v: self.v_start.spec_plus(
                v_m.spec_times(Fixed::spec_from_index(y_min).spec_minus(self.top_y)),
            ),
            v_m,
        }
    }

    /// The row stepper of this column, set to row `y_min`.
    #[verifier::when_used_as_spec(spec_init_y)]
    pub fn init_y(&self, y_min: usize) -> (r: RowStepper)
        ensures
            r == self.spec_init_y(y_min),
    {
        let y_clamp_offset = Fixed::from_index(y_min).minus(self.top_y);
        let v_m = self.v_delta.over(self.bottom_y.minus(self.top_y));
        RowStepper { v: self.v_start.plus(v_m.times(y_clamp_offset)), v_m }
    }

    pub open spec fn spec_step_x(self) -> WallInterpolator {
        WallInterpolator {
            inv_depth: self.inv_depth.spec_plus(self.inv_depth_m),
            top_y: self.top_y.spec_plus(self.top_y_m),
            bottom_y: self.bottom_y.spec_plus(self.bottom_y_m),
            u_depth: self.u_depth.spec_plus(self.u_depth_m),
            ..self
        }
    }

    /// Moves one column to the right.
    pub fn step_x(&mut self)
        ensures
            *final(self) == old(self).spec_step_x(),
    {
        self.inv_depth = self.inv_depth.plus(self.inv_depth_m);
        self.top_y = self.top_y.plus(self.top_y_m);
        self.bottom_y = self.bottom_y.plus(self.bottom_y_m);
        self.u_depth = self.u_depth.plus(self.u_depth_m);
    }

    /// The interpolator `n` columns further to the right.
    pub open spec fn stepped(self, n: int) -> WallInterpolator
        decreases n,
    {
        if n <= 0 {
            self
        } else {
            self.stepped(n - 1).spec_step_x()
        }
    }

    pub open spec fn spec_shade(&self, texture: &Texture, lighting: Fixed) -> ColumnShade {
        let depth = Fixed::spec_one().spec_over(self.inv_depth);
        let normal_depth = normalise_depth(depth);
        let level = mip_level(normal_depth, Fixed::spec_zero());
        let scale = mip_scale(level);
        ColumnShade {
            level,
            scale,
            light: light_level(diminish_lighting(normal_depth).spec_times(lighting)),
            texture_x: wrap_texel(
                self.u_depth.spec_times(depth).spec_times(scale).spec_floor(),
                texture.levels@[level as int].width,
            ),
        }
    }

    /// The mip level, light and texel column of this column: the level
    /// follows the depth, the light is `lighting` dimmed by depth, and the
    /// texel column is the texture column recovered from its quotient by
    /// depth.
    #[verifier::when_used_as_spec(spec_shade)]
    pub fn shade(&self, texture: &Texture, lighting: Fixed) -> (r: ColumnShade)
        requires
            texture.wf(),
        ensures
            r == self.spec_shade(texture, lighting),
            shade_ok(texture, r),
    {
        let depth = Fixed::one().over(self.inv_depth);
        let normal_depth = normalise_depth(depth);
        let level = mip_level(normal_depth, Fixed::zero());
        let scale = mip_scale(level);
        let light = light_level(diminish_lighting(normal_depth).times(lighting));
        let u = self.u_depth.times(depth);
        let width: usize = texture.levels[level].width;
        let texture_x = wrap_texel(u.times(scale).floor(), width);
        ColumnShade { level, scale, light, texture_x }
    }

    /// First row of this column inside the window from `lo` to `hi`.
    pub open spec fn spec_top_row(&self, lo: u16, hi: u16) -> usize {
        clamp_row(self.top_y.spec_to_index(MAX_SIDE), lo, hi)
    }

    /// Row after the last row of this column inside the window.
    pub open spec fn spec_bottom_row(&self, lo: u16, hi: u16) -> usize {
        clamp_row(self.bottom_y.spec_to_index(MAX_SIDE), lo, hi)
    }
}

/// The pixels and the two rows of wall bounds while a wall is drawn.
pub struct WallCanvas {
    pub pixels: Seq<BGRA8>,
    pub wall_min: Seq<u16>,
    pub wall_max: Seq<u16>,
}

/// The canvas after one column of a solid wall: the span between the window
/// bounds is drawn and its first row and the row after its last are noted.
pub open spec fn wall_column(
    canvas: WallCanvas,
    width: int,
    texture: &Texture,
    lighting: Fixed,
    lo: u16,
    hi: u16,
    wall: WallInterpolator,
    x: int,
) -> WallCanvas {
    let y_min = wall.spec_top_row(lo, hi);
    let y_max = wall.spec_bottom_row(lo, hi);
    WallCanvas {
        pixels: span_drawn(
            canvas.pixels,
            width,
            texture,
            wall.spec_shade(texture, lighting),
            x,
            y_min as int,
            wall.spec_init_y(y_min),
            y_max - y_min,
        ),
        wall_min: canvas.wall_min.update(x, y_min as u16),
        wall_max: canvas.wall_max.update(x, y_max as u16),
    }
}

/// The canvas after the first `n` columns of a solid wall that starts at
/// column `x_min`.
pub open spec fn wall_columns(
    canvas: WallCanvas,
    width: int,
    texture: &Texture,
    lighting: Fixed,
    lo: Seq<u16>,
    hi: Seq<u16>,
    wall: WallInterpolator,
    x_min: int,
    n: int,
) -> WallCanvas
    decreases n,
{
    if n <= 0 {
        canvas
    } else {
        wall_column(
            wall_columns(canvas, width, texture, lighting, lo, hi, wall, x_min, n - 1),
            width,
            texture,
            lighting,
            lo[x_min + n - 1],
            hi[x_min + n - 1],
            wall.stepped(n - 1),
            x_min + n - 1,
        )
    }
}

/// In every column from `x_min` up to `x_max` the window bounds are in
/// order and on the screen.
pub open spec fn window_ok(lo: Seq<u16>, hi: Seq<u16>, x_min: int, x_max: int, height: int) -> bool {
    forall|x: int| x_min <= x < x_max ==> (#[trigger] lo[x]) <= hi[x] && hi[x] <= height
}

/// In every column from `x_min` up to `x_max` both wall bounds lie inside
/// the window.
pub open spec fn walls_within(
    wall_min: Seq<u16>,
    wall_max: Seq<u16>,
    lo: Seq<u16>,
    hi: Seq<u16>,
    x_min: int,
    x_max: int,
) -> bool {
    forall|x: int|
        x_min <= x < x_max ==> lo[x] <= (#[trigger] wall_min[x]) && wall_min[x] <= hi[x] && lo[x]
            <= wall_max[x] && wall_max[x] <= hi[x]
}

/// What the first `n` columns of a solid wall leave as they were and what
/// they keep true: the sizes; every pixel outside the window of its column
/// and every pixel outside the columns drawn; the wall bounds of every
/// other column. The wall bounds of the columns drawn lie inside the
/// window.
#[verifier::rlimit(80)]
#[verifier::spinoff_prover]
pub proof fn lemma_wall_columns_frame(
    canvas: WallCanvas,
    width: int,
    height: int,
    texture: &Texture,
    lighting: Fixed,
    lo: Seq<u16>,
    hi: Seq<u16>,
    wall: WallInterpolator,
    x_min: int,
    n: int,
)
    requires
        0 <= x_min,
        0 <= n,
        x_min + n <= width,
        canvas.pixels.len() == width * height,
        canvas.wall_min.len() == width,
        canvas.wall_max.len() == width,
        lo.len() == width,
        hi.len() == width,
        window_ok(lo, hi, x_min, x_min + n, height),
    ensures
        ({
            let after = wall_columns(canvas, width, texture, lighting, lo, hi, wall, x_min, n);
            &&& after.pixels.len() == canvas.pixels.len()
            &&& after.wall_min.len() == width
            &&& after.wall_max.len() == width
            &&& forall|i: int, j: int|
                0 <= i < width && 0 <= j < height && !(x_min <= i < x_min + n && lo[i] <= j
                    < hi[i]) ==> #[trigger] grid_pixel(after.pixels, width, i, j) == grid_pixel(
                    canvas.pixels,
                    width,
                    i,
                    j,
                )
            &&& forall|i: int|
                0 <= i < width && !(x_min <= i < x_min + n) ==> #[trigger] after.wall_min[i]
                    == canvas.wall_min[i]
            &&& forall|i: int|
                0 <= i < width && !(x_min <= i < x_min + n) ==> #[trigger] after.wall_max[i]
                    == canvas.wall_max[i]
            &&& forall|i: int|
                x_min <= i < x_min + n ==> #[trigger] after.wall_min[i] == wall.stepped(
                    i - x_min,
                ).spec_top_row(lo[i], hi[i])
            &&& forall|i: int|
                x_min <= i < x_min + n ==> #[trigger] after.wall_max[i] == wall.stepped(
                    i - x_min,
                ).spec_bottom_row(lo[i], hi[i])
        }),
    decreases n,
{
    if n > 0 {
        lemma_wall_columns_frame(canvas, width, height, texture, lighting, lo, hi, wall, x_min, n - 1);
        let prev = wall_columns(canvas, width, texture, lighting, lo, hi, wall, x_min, n - 1);
        let after = wall_columns(canvas, width, texture, lighting, lo, hi, wall, x_min, n);
        let x = x_min + n - 1;
        let w = wall.stepped(n - 1);
        let y_min = w.spec_top_row(lo[x], hi[x]);
        let y_max = w.spec_bottom_row(lo[x], hi[x]);
        assert(lo[x] <= hi[x] <= height);
        let k = if y_max >= y_min {
            y_max - y_min
        } else {
            0
        };
        let shade = w.spec_shade(texture, lighting);
        let rows = w.spec_init_y(y_min);
        assert(after.pixels == span_drawn(prev.pixels, width, texture, shade, x, y_min as int, rows, y_max - y_min));
        lemma_span_empty(prev.pixels, width, texture, shade, x, y_min as int, rows, y_max - y_min);
        assert(after.pixels == span_drawn(prev.pixels, width, texture, shade, x, y_min as int, rows, k));
        lemma_span_frame(prev.pixels, width, height, texture, shade, x, y_min as int, rows, k);
        assert forall|i: int, j: int|
            0 <= i < width && 0 <= j < height && !(x_min <= i < x_min + n && lo[i] <= j
                < hi[i]) implies #[trigger] grid_pixel(after.pixels, width, i, j) == grid_pixel(
            canvas.pixels,
            width,
            i,
            j,
        ) by {
            assert(grid_pixel(prev.pixels, width, i, j) == grid_pixel(canvas.pixels, width, i, j));
            assert(!(i == x && y_min <= j < y_min + k));
        }
        assert(after.wall_min == prev.wall_min.update(x, y_min as u16));
        assert(after.wall_max == prev.wall_max.update(x, y_max as u16));
    }
}

/// The bounds that a solid wall notes lie inside the window.
pub proof fn lemma_rows_within(wall: WallInterpolator, lo: u16, hi: u16)
    requires
        lo <= hi,
    ensures
        lo <= wall.spec_top_row(lo, hi) <= hi,
        lo <= wall.spec_bottom_row(lo, hi) <= hi,
{
}

/// A span of no rows or fewer draws nothing.
pub proof fn lemma_span_empty(
    pixels: Seq<BGRA8>,
    width: int,
    texture: &Texture,
    shade: ColumnShade,
    x: int,
    y_min: int,
    rows: RowStepper,
    k: int,
)
    ensures
        k <= 0 ==> span_drawn(pixels, width, texture, shade, x, y_min, rows, k) == pixels,
        span_drawn(pixels, width, texture, shade, x, y_min, rows, 0) == pixels,
{
}

/// Keeps, for each screen column, the rows that the walls of the sector
/// being drawn cover.
pub struct WallRenderer {
    /// For each column, the first row of the wall drawn there.
    pub wall_bounds_min: Vec<u16>,
    /// For each column, the row after the last row of the wall drawn there.
    pub wall_bounds_max: Vec<u16>,
}

impl WallRenderer {
    /// Both rows have one entry per screen column.
    pub open spec fn wf(&self, width: int) -> bool {
        self.wall_bounds_min@.len() == width && self.wall_bounds_max@.len() == width
    }

    /// The canvas made of the pixels of `framebuffer` and the wall bounds.
    pub open spec fn canvas(&self, framebuffer: &Framebuffer) -> WallCanvas {
        WallCanvas {
            pixels: framebuffer.pixels@,
            wall_min: self.wall_bounds_min@,
            wall_max: self.wall_bounds_max@,
        }
    }

    /// The two rows of wall bounds.
    pub fn get_wall_bounds(&self) -> (r: (&[u16], &[u16]))
        ensures
            r.0@ == self.wall_bounds_min@,
            r.1@ == self.wall_bounds_max@,
    {
        (self.wall_bounds_min.as_slice(), self.wall_bounds_max.as_slice())
    }

    /// Draws columns `x_min` up to `x_max` of a solid wall, each between
    /// the window bounds of its column, and notes in the wall bounds where
    /// each column starts and ends.
    pub fn rasterise_wall(
        &mut self,
        framebuffer: &mut Framebuffer,
        wall: WallInterpolator,
        lighting: Fixed,
        texture: &Texture,
        y_bounds: (&[u16], &[u16]),
        x_min: usize,
        x_max: usize,
    )
        requires
            old(framebuffer).wf(),
            old(self).wf(old(framebuffer).width as int),
            texture.wf(),
            y_bounds.0@.len() == old(framebuffer).width,
            y_bounds.1@.len() == old(framebuffer).width,
            x_min <= x_max <= old(framebuffer).width,
            window_ok(
                y_bounds.0@,
                y_bounds.1@,
                x_min as int,
                x_max as int,
                old(framebuffer).height as int,
            ),
        ensures
            final(framebuffer).wf(),
            final(framebuffer).width == old(framebuffer).width,
            final(framebuffer).height == old(framebuffer).height,
            final(self).wf(old(framebuffer).width as int),
            final(self).canvas(final(framebuffer)) == wall_columns(
                old(self).canvas(old(framebuffer)),
                old(framebuffer).width as int,
                texture,
                lighting,
                y_bounds.0@,
                y_bounds.1@,
                wall,
                x_min as int,
                x_max - x_min,
            ),
    {
        let mut wall = wall;
        let ghost wall0 = wall;
        let ghost start = self.canvas(framebuffer);
        let ghost width = framebuffer.width as int;
        let mut x: usize = x_min;
        while x < x_max
            invariant
                x_min <= x <= x_max <= framebuffer.width,
                framebuffer.wf(),
                framebuffer.width == width,
                framebuffer.height == old(framebuffer).height,
                self.wf(width),
                texture.wf(),
                y_bounds.0@.len() == width,
                y_bounds.1@.len() == width,
                window_ok(
                    y_bounds.0@,
                    y_bounds.1@,
                    x_min as int,
                    x_max as int,
                    framebuffer.height as int,
                ),
                wall == wall0.stepped(x - x_min),
                self.canvas(framebuffer) == wall_columns(
                    start,
                    width,
                    texture,
                    lighting,
                    y_bounds.0@,
                    y_bounds.1@,
                    wall0,
                    x_min as int,
                    x - x_min,
                ),
            decreases x_max - x,
        {
            let min_portal_bound: u16 = y_bounds.0[x];
            let max_portal_bound: u16 = y_bounds.1[x];
            assert(min_portal_bound <= max_portal_bound <= framebuffer.height);
            let y_min: usize = clamp_row(
                wall.top_y.to_index(MAX_SIDE),
                min_portal_bound,
                max_portal_bound,
            );
            let y_max: usize = clamp_row(
                wall.bottom_y.to_index(MAX_SIDE),
                min_portal_bound,
                max_portal_bound,
            );
            let shade = wall.shade(texture, lighting);
            let rows = wall.init_y(y_min);
            rasterise_span(framebuffer, texture, shade, x, y_min, y_max, rows);
            self.wall_bounds_min[x] = y_min as u16;
            self.wall_bounds_max[x] = y_max as u16;
            wall.step_x();
            x = x + 1;
        }
    }
}

/// Raw value of the share of light that depends on the direction a wall
/// faces, `0.7`.
pub const LIGHT_INTENSITY_RAW: i64 = 11744051;

pub open spec fn spec_wall_lighting(normal: Vec2f) -> Fixed {
    let light_direction = Vec2f { x: Fixed::spec_zero(), y: Fixed::spec_one() };
    let light_angle = light_direction.spec_dot(normal.spec_neg()).spec_half().spec_plus(
        Fixed::spec_one().spec_half(),
    );
    let light_intensity = Fixed { raw: LIGHT_INTENSITY_RAW };
    Fixed::spec_one().spec_minus(light_intensity).spec_plus(
        light_angle.spec_times(light_intensity),
    )
}

/// The light on a wall with the given unit normal, from a light that shines
/// along the second axis: a fixed share, and the rest by how far the wall
/// faces the light.
#[verifier::when_used_as_spec(spec_wall_lighting)]
pub fn wall_lighting(normal: Vec2f) -> (r: Fixed)
    ensures
        r == spec_wall_lighting(normal),
{
    let light_direction = Vec2f { x: Fixed::zero(), y: Fixed::one() };
    let light_angle = light_direction.dot(normal.neg()).half().plus(Fixed::one().half());
    let light_intensity = Fixed { raw: LIGHT_INTENSITY_RAW };
    Fixed::one().minus(light_intensity).plus(light_angle.times(light_intensity))
}

/// A wall in view space cut at the near plane.
#[derive(Clone, Copy, Debug, PartialEq, Eq, Structural)]
pub struct NearClip {
    pub a: Vec2f,
    pub b: Vec2f,
    /// How far along the wall the first end was moved towards the second.
    pub t_a: Option<Fixed>,
    /// How far along the wall the second end was moved towards the first.
    pub t_b: Option<Fixed>,
}

pub open spec fn spec_near_clip(a: Vec2f, b: Vec2f) -> NearClip {
    if a.y.raw < near().raw {
        let t = near().spec_minus(a.y).spec_over(b.y.spec_minus(a.y));
        NearClip {
            a: Vec2f { x: a.x.spec_plus(b.x.spec_minus(a.x).spec_times(t)), y: near() },
            b,
            t_a: Some(t),
            t_b: None,
        }
    } else if b.y.raw < near().raw {
        let t = near().spec_minus(b.y).spec_over(a.y.spec_minus(b.y));
        NearClip {
            a,
            b: Vec2f { x: b.x.spec_plus(a.x.spec_minus(b.x).spec_times(t)), y: near() },
            t_a: None,
            t_b: Some(t),
        }
    } else {
        NearClip { a, b, t_a: None, t_b: None }
    }
}

/// Moves the end of a wall that lies before the near plane along the wall
/// onto the near plane.
#[verifier::when_used_as_spec(spec_near_clip)]
pub fn near_clip(a: Vec2f, b: Vec2f) -> (r: NearClip)
    ensures
        r == spec_near_clip(a, b),
{
    if a.y.raw < near().raw {
        let t = near().minus(a.y).over(b.y.minus(a.y));
        NearClip {
            a: Vec2f { x: a.x.plus(b.x.minus(a.x).times(t)), y: near() },
            b,
            t_a: Some(t),
            t_b: None,
        }
    } else if b.y.raw < near().raw {
        let t = near().minus(b.y).over(a.y.minus(b.y));
        NearClip {
            a,
            b: Vec2f { x: b.x.plus(a.x.minus(b.x).times(t)), y: near() },
            t_a: None,
            t_b: Some(t),
        }
    } else {
        NearClip { a, b, t_a: None, t_b: None }
    }
}

impl NearClip {
    pub open spec fn spec_clip_tex(&self, tex_a: Vec2f, tex_b: Vec2f) -> (Vec2f, Vec2f) {
        match (self.t_a, self.t_b) {
            (Some(t), _) => (
                Vec2f { x: tex_a.x.spec_plus(tex_b.x.spec_minus(tex_a.x).spec_times(t)), y: tex_a.y },
                tex_b,
            ),
            (None, Some(t)) => (
                tex_a,
                Vec2f { x: tex_b.x.spec_plus(tex_a.x.spec_minus(tex_b.x).spec_times(t)), y: tex_b.y },
            ),
            (None, None) => (tex_a, tex_b),
        }
    }

    /// Moves the texture column of the end that was cut as far along the
    /// wall as the end itself.
    #[verifier::when_used_as_spec(spec_clip_tex)]
    pub fn clip_tex(&self, tex_a: Vec2f, tex_b: Vec2f) -> (r: (Vec2f, Vec2f))
        ensures
            r == self.spec_clip_tex(tex_a, tex_b),
    {
        match (self.t_a, self.t_b) {
            (Some(t), _) => (
                Vec2f { x: tex_a.x.plus(tex_b.x.minus(tex_a.x).times(t)), y: tex_a.y },
                tex_b,
            ),
            (None, Some(t)) => (
                tex_a,
                Vec2f { x: tex_b.x.plus(tex_a.x.minus(tex_b.x).times(t)), y: tex_b.y },
            ),
            (None, None) => (tex_a, tex_b),
        }
    }
}

pub open spec fn spec_wall_tex(data: WallTexture, from: Vec2f, to: Vec2f) -> (Vec2f, Vec2f) {
    (from.spec_plus(data.offset).spec_times(data.scale), to.spec_plus(data.offset).spec_times(
        data.scale,
    ))
}

/// Texture coordinates of two corners of a wall: each moved by the offset
/// and then multiplied by the scale of the wall's texture.
#[verifier::when_used_as_spec(spec_wall_tex)]
pub fn wall_tex(data: WallTexture, from: Vec2f, to: Vec2f) -> (r: (Vec2f, Vec2f))
    ensures
        r == spec_wall_tex(data, from, to),
{
    (from.plus(data.offset).times(data.scale), to.plus(data.offset).times(data.scale))
}

pub open spec fn spec_columns_of(left: Fixed, right: Fixed, window: PortalNode) -> (usize, usize) {
    (
        spec_clamp_column(left.spec_to_index(MAX_SIDE), window.x_min, window.x_max),
        spec_clamp_column(right.spec_to_index(MAX_SIDE), window.x_min, window.x_max),
    )
}

/// `v` limited to the interval from `lo` to `hi`.
pub open spec fn spec_clamp_column(v: usize, lo: usize, hi: usize) -> usize {
    if v < lo {
        lo
    } else if v > hi {
        hi
    } else {
        v
    }
}

/// `v` limited to the interval from `lo` to `hi`.
#[verifier::when_used_as_spec(spec_clamp_column)]
pub fn clamp_column(v: usize, lo: usize, hi: usize) -> (r: usize)
    ensures
        r == spec_clamp_column(v, lo, hi),
        lo <= hi ==> lo <= r <= hi,
{
    if v < lo {
        lo
    } else if v > hi {
        hi
    } else {
        v
    }
}

/// The columns of a window that a wall from screen column `left` to
/// `right` covers.
#[verifier::when_used_as_spec(spec_columns_of)]
pub fn columns_of(left: Fixed, right: Fixed, window: PortalNode) -> (r: (usize, usize))
    ensures
        r == spec_columns_of(left, right, window),
        window.x_min <= window.x_max && left.raw <= right.raw ==> window.x_min <= r.0 <= r.1
            <= window.x_max,
{
    proof {
        if left.raw <= right.raw {
            crate::fixed::lemma_to_index_monotone(left, right, MAX_SIDE);
        }
    }
    (
        clamp_column(left.to_index(MAX_SIDE), window.x_min, window.x_max),
        clamp_column(right.to_index(MAX_SIDE), window.x_min, window.x_max),
    )
}

pub open spec fn spec_depth_range(
    vs_a: Vec2f,
    vs_b: Vec2f,
    left: Fixed,
    right: Fixed,
    x_min: usize,
    x_max: usize,
) -> (Fixed, Fixed) {
    let depth_a = vs_a.spec_magnitude_sq();
    let depth_b = vs_b.spec_magnitude_sq();
    let depth_gradient = depth_b.spec_minus(depth_a).spec_over(right.spec_minus(left));
    let x_min_offset = Fixed::spec_from_index(x_min).spec_minus(left);
    let x_max_offset = left.spec_minus(Fixed::spec_from_index(x_max));
    let near_end = depth_a.spec_plus(depth_gradient.spec_times(x_min_offset));
    let far_end = depth_b.spec_plus(depth_gradient.spec_times(x_max_offset));
    (near_end.spec_min(far_end), near_end.spec_max(far_end))
}

/// The least and the greatest squared distance noted for the part of a wall
/// between the columns `x_min` and `x_max`: the squared distances of the
/// two ends, each moved along their difference per column.
#[verifier::when_used_as_spec(spec_depth_range)]
pub fn depth_range(
    vs_a: Vec2f,
    vs_b: Vec2f,
    left: Fixed,
    right: Fixed,
    x_min: usize,
    x_max: usize,
) -> (r: (Fixed, Fixed))
    ensures
        r == spec_depth_range(vs_a, vs_b, left, right, x_min, x_max),
{
    let depth_a = vs_a.magnitude_sq();
    let depth_b = vs_b.magnitude_sq();
    let depth_gradient = depth_b.minus(depth_a).over(right.minus(left));
    let x_min_offset = Fixed::from_index(x_min).minus(left);
    let x_max_offset = left.minus(Fixed::from_index(x_max));
    let near_end = depth_a.plus(depth_gradient.times(x_min_offset));
    let far_end = depth_b.plus(depth_gradient.times(x_max_offset));
    (near_end.min(far_end), near_end.max(far_end))
}

/// What is needed to draw a solid wall that is in view.
#[derive(Clone, Copy, Debug, PartialEq, Eq, Structural)]
pub struct WallJob {
    pub interpolator: WallInterpolator,
    pub lighting: Fixed,
    pub x_min: usize,
    pub x_max: usize,
    pub max_depth: Fixed,
}

pub open spec fn spec_prepare_wall(
    lens: &Lens,
    frustum: &Polygon,
    window: PortalNode,
    ceiling: Fixed,
    floor: Fixed,
    wall: &Wall,
) -> Option<WallJob> {
    let vs_a = lens.spec_transform_view(wall.segment.a);
    let vs_b = lens.spec_transform_view(wall.segment.b);
    if !RendererState::spec_in_view(frustum, vs_a, vs_b) {
        None
    } else {
        let tex = spec_wall_tex(
            wall.texture_data,
            Vec2f::spec_zero(),
            Vec2f { x: wall.width, y: ceiling.spec_minus(floor) },
        );
        let clip = spec_near_clip(vs_a, vs_b);
        let tex = clip.spec_clip_tex(tex.0, tex.1);
        let top_a = lens.spec_project_screen_space(clip.a, ceiling);
        let top_b = lens.spec_project_screen_space(clip.b, ceiling);
        let bottom_a = lens.spec_project_screen_space(clip.a, floor);
        let bottom_b = lens.spec_project_screen_space(clip.b, floor);
        if top_a.0.x.raw >= top_b.0.x.raw {
            None
        } else if top_b.0.x.raw < Fixed::spec_from_index(window.x_min).raw || top_a.0.x.raw
            > Fixed::spec_from_index(window.x_max).raw {
            None
        } else {
            let columns = spec_columns_of(top_a.0.x, top_b.0.x, window);
            Some(
                WallJob {
                    interpolator: WallInterpolator::spec_new(
                        WallEnd {
                            x: top_a.0.x,
                            top_y: top_a.0.y,
                            bottom_y: bottom_a.0.y,
                            tex: tex.0,
                            inv_depth: top_a.1,
                        },
                        WallEnd {
                            x: top_b.0.x,
                            top_y: top_b.0.y,
                            bottom_y: bottom_b.0.y,
                            tex: tex.1,
                            inv_depth: top_b.1,
                        },
                        Fixed::spec_from_index(columns.0),
                    ),
                    lighting: spec_wall_lighting(wall.normal),
                    x_min: columns.0,
                    x_max: columns.1,
                    max_depth: spec_depth_range(
                        clip.a,
                        clip.b,
                        top_a.0.x,
                        top_b.0.x,
                        columns.0,
                        columns.1,
                    ).1,
                },
            )
        }
    }
}

/// Takes a solid wall from the world to the screen: to view space; out if
/// it does not overlap the frustum; cut at the near plane; projected at
/// ceiling and floor height; out if it faces away or misses the window;
/// else the interpolator for the columns of the window that it covers.
#[verifier::when_used_as_spec(spec_prepare_wall)]
pub fn prepare_wall(
    lens: &Lens,
    frustum: &Polygon,
    window: PortalNode,
    ceiling: Fixed,
    floor: Fixed,
    wall: &Wall,
) -> (r: Option<WallJob>)
    ensures
        r == spec_prepare_wall(lens, frustum, window, ceiling, floor, wall),
        r is Some && window.x_min <= window.x_max ==> window.x_min <= r.unwrap().x_min
            <= r.unwrap().x_max <= window.x_max,
{
    let vs_a = lens.transform_view(wall.segment.a);
    let vs_b = lens.transform_view(wall.segment.b);
    if !RendererState::in_view(frustum, vs_a, vs_b) {
        return None;
    }
    let tex = wall_tex(
        wall.texture_data,
        Vec2f::zero(),
        Vec2f { x: wall.width, y: ceiling.minus(floor) },
    );
    let clip = near_clip(vs_a, vs_b);
    let tex = clip.clip_tex(tex.0, tex.1);
    let top_a = lens.project_screen_space(clip.a, ceiling);
    let top_b = lens.project_screen_space(clip.b, ceiling);
    let bottom_a = lens.project_screen_space(clip.a, floor);
    let bottom_b = lens.project_screen_space(clip.b, floor);
    // A wall that faces away has its ends the other way round.
    if top_a.0.x.raw >= top_b.0.x.raw {
        return None;
    }
    if top_b.0.x.raw < Fixed::from_index(window.x_min).raw || top_a.0.x.raw > Fixed::from_index(
        window.x_max,
    ).raw {
        return None;
    }
    let columns = columns_of(top_a.0.x, top_b.0.x, window);
    let interpolator = WallInterpolator::new(
        WallEnd {
            x: top_a.0.x,
            top_y: top_a.0.y,
            bottom_y: bottom_a.0.y,
            tex: tex.0,
            inv_depth: top_a.1,
        },
        WallEnd {
            x: top_b.0.x,
            top_y: top_b.0.y,
            bottom_y: bottom_b.0.y,
            tex: tex.1,
            inv_depth: top_b.1,
        },
        Fixed::from_index(columns.0),
    );
    let depths = depth_range(clip.a, clip.b, top_a.0.x, top_b.0.x, columns.0, columns.1);
    Some(
        WallJob {
            interpolator,
            lighting: wall_lighting(wall.normal),
            x_min: columns.0,
            x_max: columns.1,
            max_depth: depths.1,
        },
    )
}

impl WallRenderer {
    /// Wall bounds for a screen of the size of `state`: the full height in
    /// every column.
    pub fn new(state: &RendererState) -> (r: WallRenderer)
        requires
            state.framebuffer.wf(),
        ensures
            r.wf(state.framebuffer.width as int),
            forall|x: int|
                0 <= x < state.framebuffer.width ==> r.wall_bounds_min@[x] == 0
                    && r.wall_bounds_max@[x] == state.framebuffer.height,
    {
        WallRenderer {
            wall_bounds_min: filled_row(state.framebuffer.width(), 0),
            wall_bounds_max: filled_row(
                state.framebuffer.width(),
                state.framebuffer.height() as u16,
            ),
        }
    }

    /// Takes the screen size of `state`: the wall bounds are made anew, the
    /// full height in every column.
    pub fn set_viewport(&mut self, state: &RendererState)
        requires
            state.framebuffer.wf(),
        ensures
            final(self).wf(state.framebuffer.width as int),
            forall|x: int|
                0 <= x < state.framebuffer.width ==> final(self).wall_bounds_min@[x] == 0
                    && final(self).wall_bounds_max@[x] == state.framebuffer.height,
    {
        self.wall_bounds_min = filled_row(state.framebuffer.width(), 0);
        self.wall_bounds_max = filled_row(
            state.framebuffer.width(),
            state.framebuffer.height() as u16,
        );
    }

    /// Nothing is kept from frame to frame.
    pub fn update(&mut self, state: &RendererState)
        ensures
            *final(self) == *old(self),
    {
    }

    /// Draws a solid wall of `sector` as seen through the window `portal`,
    /// and raises the greatest depth noted in `portal` to that of the wall.
    /// A wall that is out of view changes nothing.
    pub fn draw_wall(
        &mut self,
        state: &mut RendererState,
        portal: &mut PortalNode,
        y_bounds: (&[u16], &[u16]),
        sector: &Sector,
        wall: &Wall,
        texture: &Texture,
    )
        requires
            old(state).framebuffer.wf(),
            old(self).wf(old(state).framebuffer.width as int),
            texture.wf(),
            y_bounds.0@.len() == old(state).framebuffer.width,
            y_bounds.1@.len() == old(state).framebuffer.width,
            old(portal).x_min <= old(portal).x_max <= old(state).framebuffer.width,
            window_ok(
                y_bounds.0@,
                y_bounds.1@,
                old(portal).x_min as int,
                old(portal).x_max as int,
                old(state).framebuffer.height as int,
            ),
        ensures
            final(state).framebuffer.wf(),
            final(state).same_view(old(state)),
            final(self).wf(old(state).framebuffer.width as int),
            match spec_prepare_wall(
                &old(state).spec_lens(),
                &old(state).frustum,
                *old(portal),
                sector.ceiling.height,
                sector.floor.height,
                wall,
            ) {
                None => {
                    &&& final(state).framebuffer.pixels@ == old(state).framebuffer.pixels@
                    &&& *final(self) == *old(self)
                    &&& *final(portal) == *old(portal)
                },
                Some(job) => {
                    &&& final(self).canvas(&final(state).framebuffer) == wall_columns(
                        old(self).canvas(&old(state).framebuffer),
                        old(state).framebuffer.width as int,
                        texture,
                        job.lighting,
                        y_bounds.0@,
                        y_bounds.1@,
                        job.interpolator,
                        job.x_min as int,
                        job.x_max - job.x_min,
                    )
                    &&& *final(portal) == (PortalNode {
                        depth_max: old(portal).depth_max.spec_max(job.max_depth),
                        ..*old(portal)
                    })
                },
            },
    {
        let lens = state.lens();
        let job = match prepare_wall(
            &lens,
            &state.frustum,
            *portal,
            sector.ceiling.height,
            sector.floor.height,
            wall,
        ) {
            Some(job) => job,
            None => {
                return ;
            },
        };
        portal.depth_max = portal.depth_max.max(job.max_depth);
        proof {
            assert forall|x: int| job.x_min <= x < job.x_max implies (#[trigger] y_bounds.0@[x])
                <= y_bounds.1@[x] && y_bounds.1@[x] <= state.framebuffer.height by {}
        }
        self.rasterise_wall(
            &mut state.framebuffer,
            job.interpolator,
            job.lighting,
            texture,
            y_bounds,
            job.x_min,
            job.x_max,
        );
    }
}

/// The rows of one column of a portal wall: the band above the opening
/// from `upper_y_min` up to `upper_y_max`, the opening up to `lower_y_min`,
/// and the band below it up to `lower_y_max`.
#[derive(Clone, Copy, Debug, PartialEq, Eq, Structural)]
pub struct PortalRows {
    pub upper_y_min: usize,
    pub upper_y_max: usize,
    pub lower_y_min: usize,
    pub lower_y_max: usize,
}

pub open spec fn spec_portal_rows(
    upper: &WallInterpolator,
    lower: &WallInterpolator,
    lo: u16,
    hi: u16,
) -> PortalRows {
    let upper_y_min = upper.spec_top_row(lo, hi);
    let upper_y_max = upper.spec_bottom_row(lo, hi);
    let upper_y_max = if upper_y_max < upper_y_min {
        upper_y_min
    } else {
        upper_y_max
    };
    let lower_y_max = lower.spec_bottom_row(lo, hi);
    let lower_y_min = lower.spec_top_row(lo, hi);
    let lower_y_min = if lower_y_min > lower_y_max {
        lower_y_max
    } else {
        lower_y_min
    };
    let lower_y_max = if lower_y_max < upper_y_max {
        upper_y_max
    } else {
        lower_y_max
    };
    let lower_y_min = if lower_y_min < upper_y_max {
        upper_y_max
    } else {
        lower_y_min
    };
    PortalRows { upper_y_min, upper_y_max, lower_y_min, lower_y_max }
}

/// The rows of one column of a portal wall inside the window from `lo` to
/// `hi`. The upper band never ends before it starts, the lower band never
/// starts after it ends, and the lower band never rises above the end of
/// the upper band.
#[verifier::when_used_as_spec(spec_portal_rows)]
pub fn portal_rows(upper: &WallInterpolator, lower: &WallInterpolator, lo: u16, hi: u16) -> (r:
    PortalRows)
    ensures
        r == spec_portal_rows(upper, lower, lo, hi),
        lo <= hi ==> lo <= r.upper_y_min <= r.upper_y_max <= r.lower_y_min <= r.lower_y_max <= hi,
{
    let upper_y_min = clamp_row(upper.top_y.to_index(MAX_SIDE), lo, hi);
    let upper_y_max = clamp_row(upper.bottom_y.to_index(MAX_SIDE), lo, hi);
    let upper_y_max = if upper_y_max < upper_y_min {
        upper_y_min
    } else {
        upper_y_max
    };
    let lower_y_max = clamp_row(lower.bottom_y.to_index(MAX_SIDE), lo, hi);
    let lower_y_min = clamp_row(lower.top_y.to_index(MAX_SIDE), lo, hi);
    let lower_y_min = if lower_y_min > lower_y_max {
        lower_y_max
    } else {
        lower_y_min
    };
    let lower_y_max = if lower_y_max < upper_y_max {
        upper_y_max
    } else {
        lower_y_max
    };
    let lower_y_min = if lower_y_min < upper_y_max {
        upper_y_max
    } else {
        lower_y_min
    };
    PortalRows { upper_y_min, upper_y_max, lower_y_min, lower_y_max }
}

/// The pixels, the wall bounds and the bounds of the window behind a
/// portal wall while the wall is drawn.
pub struct PortalCanvas {
    pub pixels: Seq<BGRA8>,
    pub wall_min: Seq<u16>,
    pub wall_max: Seq<u16>,
    pub child_lo: Seq<u16>,
    pub child_hi: Seq<u16>,
}

/// The two textures and the light of a portal wall.
pub struct PortalLook<'a> {
    pub upper_texture: &'a Texture,
    pub lower_texture: &'a Texture,
    pub lighting: Fixed,
}

/// The canvas after one column of a portal wall: both bands are drawn, the
/// wall bounds hold the start of the upper and the end of the lower band,
/// and the window behind is the opening between the bands.
pub open spec fn portal_column(
    canvas: PortalCanvas,
    width: int,
    look: PortalLook,
    lo: u16,
    hi: u16,
    upper: WallInterpolator,
    lower: WallInterpolator,
    x: int,
) -> PortalCanvas {
    let rows = spec_portal_rows(&upper, &lower, lo, hi);
    let above = span_drawn(
        canvas.pixels,
        width,
        look.upper_texture,
        upper.spec_shade(look.upper_texture, look.lighting),
        x,
        rows.upper_y_min as int,
        upper.spec_init_y(rows.upper_y_min),
        rows.upper_y_max - rows.upper_y_min,
    );
    PortalCanvas {
        pixels: span_drawn(
            above,
            width,
            look.lower_texture,
            lower.spec_shade(look.lower_texture, look.lighting),
            x,
            rows.lower_y_min as int,
            lower.spec_init_y(rows.lower_y_min),
            rows.lower_y_max - rows.lower_y_min,
        ),
        wall_min: canvas.wall_min.update(x, rows.upper_y_min as u16),
        wall_max: canvas.wall_max.update(x, rows.lower_y_max as u16),
        child_lo: canvas.child_lo.update(x, rows.upper_y_max as u16),
        child_hi: canvas.child_hi.update(x, rows.lower_y_min as u16),
    }
}

/// The canvas after the first `n` columns of a portal wall that starts at
/// column `x_min`.
pub open spec fn portal_columns(
    canvas: PortalCanvas,
    width: int,
    look: PortalLook,
    lo: Seq<u16>,
    hi: Seq<u16>,
    upper: WallInterpolator,
    lower: WallInterpolator,
    x_min: int,
    n: int,
) -> PortalCanvas
    decreases n,
{
    if n <= 0 {
        canvas
    } else {
        portal_column(
            portal_columns(canvas, width, look, lo, hi, upper, lower, x_min, n - 1),
            width,
            look,
            lo[x_min + n - 1],
            hi[x_min + n - 1],
            upper.stepped(n - 1),
            lower.stepped(n - 1),
            x_min + n - 1,
        )
    }
}

impl WallRenderer {
    /// The canvas made of the pixels of `framebuffer`, the wall bounds and
    /// the rows of depth `depth` of `portals`.
    pub open spec fn portal_canvas(
        &self,
        framebuffer: &Framebuffer,
        portals: &PortalTree,
        depth: int,
    ) -> PortalCanvas {
        PortalCanvas {
            pixels: framebuffer.pixels@,
            wall_min: self.wall_bounds_min@,
            wall_max: self.wall_bounds_max@,
            child_lo: portals.portal_bounds_min@[depth]@,
            child_hi: portals.portal_bounds_max@[depth]@,
        }
    }

    /// Draws one column of a portal wall seen through a window of depth
    /// `depth`, and sets the window of depth `depth + 1` in that column to
    /// the opening.
    pub fn portal_wall_column(
        &mut self,
        framebuffer: &mut Framebuffer,
        portals: &mut PortalTree,
        depth: usize,
        upper_wall: &WallInterpolator,
        lower_wall: &WallInterpolator,
        look: &PortalLook,
        x: usize,
    )
        requires
            old(framebuffer).wf(),
            old(portals).wf(),
            old(portals).screen_width == old(framebuffer).width,
            old(portals).screen_height == old(framebuffer).height,
            old(self).wf(old(framebuffer).width as int),
            look.upper_texture.wf(),
            look.lower_texture.wf(),
            depth + 1 < old(portals).layers(),
            x < old(framebuffer).width,
        ensures
            final(framebuffer).wf(),
            final(framebuffer).width == old(framebuffer).width,
            final(framebuffer).height == old(framebuffer).height,
            final(portals).wf(),
            final(portals).screen_width == old(portals).screen_width,
            final(portals).screen_height == old(portals).screen_height,
            final(portals).nodes@ == old(portals).nodes@,
            final(portals).layers() == old(portals).layers(),
            forall|d: int|
                0 <= d < old(portals).layers() && d != depth + 1 ==> #[trigger] final(portals).portal_bounds_min@[d]
                    == old(portals).portal_bounds_min@[d],
            forall|d: int|
                0 <= d < old(portals).layers() && d != depth + 1 ==> #[trigger] final(portals).portal_bounds_max@[d]
                    == old(portals).portal_bounds_max@[d],
            final(self).wf(old(framebuffer).width as int),
            final(self).portal_canvas(final(framebuffer), final(portals), depth + 1)
                == portal_column(
                old(self).portal_canvas(old(framebuffer), old(portals), depth + 1),
                old(framebuffer).width as int,
                *look,
                old(portals).portal_bounds_min@[depth as int]@[x as int],
                old(portals).portal_bounds_max@[depth as int]@[x as int],
                *upper_wall,
                *lower_wall,
                x as int,
            ),
    {
        let layers: usize = portals.portal_bounds_min.len();
        let bounds = portals.bounds_at(depth, x);
        let rows = portal_rows(upper_wall, lower_wall, bounds.0, bounds.1);
        let upper_shade = upper_wall.shade(look.upper_texture, look.lighting);
        let upper_rows = upper_wall.init_y(rows.upper_y_min);
        rasterise_span(
            framebuffer,
            look.upper_texture,
            upper_shade,
            x,
            rows.upper_y_min,
            rows.upper_y_max,
            upper_rows,
        );
        let lower_shade = lower_wall.shade(look.lower_texture, look.lighting);
        let lower_rows = lower_wall.init_y(rows.lower_y_min);
        rasterise_span(
            framebuffer,
            look.lower_texture,
            lower_shade,
            x,
            rows.lower_y_min,
            rows.lower_y_max,
            lower_rows,
        );
        self.wall_bounds_min[x] = rows.upper_y_min as u16;
        self.wall_bounds_max[x] = rows.lower_y_max as u16;
        portals.set_bounds(depth + 1, x, rows.upper_y_max as u16, rows.lower_y_min as u16);
    }

    /// Draws columns `x_min` up to `x_max` of a portal wall seen through a
    /// window of depth `depth`: the band above and the band below the
    /// opening, each inside the window. The opening is left as it is and
    /// becomes, column by column, the window of depth `depth + 1`.
    pub fn rasterise_portal_wall(
        &mut self,
        framebuffer: &mut Framebuffer,
        portals: &mut PortalTree,
        depth: usize,
        upper_wall: WallInterpolator,
        lower_wall: WallInterpolator,
        look: &PortalLook,
        x_min: usize,
        x_max: usize,
    )
        requires
            old(framebuffer).wf(),
            old(portals).wf(),
            old(portals).screen_width == old(framebuffer).width,
            old(portals).screen_height == old(framebuffer).height,
            old(self).wf(old(framebuffer).width as int),
            look.upper_texture.wf(),
            look.lower_texture.wf(),
            depth + 1 < old(portals).layers(),
            x_min <= x_max <= old(framebuffer).width,
        ensures
            final(framebuffer).wf(),
            final(framebuffer).width == old(framebuffer).width,
            final(framebuffer).height == old(framebuffer).height,
            final(portals).wf(),
            final(portals).screen_width == old(portals).screen_width,
            final(portals).screen_height == old(portals).screen_height,
            final(portals).nodes@ == old(portals).nodes@,
            final(portals).layers() == old(portals).layers(),
            forall|d: int|
                0 <= d < old(portals).layers() && d != depth + 1 ==> #[trigger] final(portals).portal_bounds_min@[d]
                    == old(portals).portal_bounds_min@[d],
            forall|d: int|
                0 <= d < old(portals).layers() && d != depth + 1 ==> #[trigger] final(portals).portal_bounds_max@[d]
                    == old(portals).portal_bounds_max@[d],
            final(self).wf(old(framebuffer).width as int),
            final(self).portal_canvas(final(framebuffer), final(portals), depth + 1)
                == portal_columns(
                old(self).portal_canvas(old(framebuffer), old(portals), depth + 1),
                old(framebuffer).width as int,
                *look,
                old(portals).portal_bounds_min@[depth as int]@,
                old(portals).portal_bounds_max@[depth as int]@,
                upper_wall,
                lower_wall,
                x_min as int,
                x_max - x_min,
            ),
    {
        let mut upper_wall = upper_wall;
        let mut lower_wall = lower_wall;
        let ghost upper0 = upper_wall;
        let ghost lower0 = lower_wall;
        let ghost start = self.portal_canvas(framebuffer, portals, depth + 1);
        let ghost width = framebuffer.width as int;
        let ghost lo = portals.portal_bounds_min@[depth as int]@;
        let ghost hi = portals.portal_bounds_max@[depth as int]@;
        let mut x: usize = x_min;
        while x < x_max
            invariant
                x_min <= x <= x_max <= framebuffer.width,
                framebuffer.wf(),
                framebuffer.width == width,
                framebuffer.height == old(framebuffer).height,
                portals.wf(),
                portals.screen_width == framebuffer.width,
                portals.screen_height == framebuffer.height,
                portals.nodes@ == old(portals).nodes@,
                portals.layers() == old(portals).layers(),
                depth + 1 < portals.layers(),
                forall|d: int|
                    0 <= d < old(portals).layers() && d != depth + 1 ==> #[trigger] portals.portal_bounds_min@[d]
                        == old(portals).portal_bounds_min@[d],
                forall|d: int|
                    0 <= d < old(portals).layers() && d != depth + 1 ==> #[trigger] portals.portal_bounds_max@[d]
                        == old(portals).portal_bounds_max@[d],
                lo == portals.portal_bounds_min@[depth as int]@,
                hi == portals.portal_bounds_max@[depth as int]@,
                self.wf(width),
                look.upper_texture.wf(),
                look.lower_texture.wf(),
                upper_wall == upper0.stepped(x - x_min),
                lower_wall == lower0.stepped(x - x_min),
                self.portal_canvas(framebuffer, portals, depth + 1) == portal_columns(
                    start,
                    width,
                    *look,
                    lo,
                    hi,
                    upper0,
                    lower0,
                    x_min as int,
                    x - x_min,
                ),
            decreases x_max - x,
        {
            self.portal_wall_column(framebuffer, portals, depth, &upper_wall, &lower_wall, look, x);
            upper_wall.step_x();
            lower_wall.step_x();
            x = x + 1;
        }
    }
}

/// What is needed to draw a portal wall that is in view.
#[derive(Clone, Copy, Debug, PartialEq, Eq, Structural)]
pub struct PortalJob {
    /// The band between the ceiling of the sector and that of its
    /// neighbour.
    pub upper: WallInterpolator,
    /// The band between the floor of the neighbour and that of the sector.
    pub lower: WallInterpolator,
    pub lighting: Fixed,
    pub x_min: usize,
    pub x_max: usize,
    pub min_depth: Fixed,
    pub max_depth: Fixed,
}

/// Ceiling and floor heights of a sector and of the neighbour behind a
/// portal.
#[derive(Clone, Copy, Debug, PartialEq, Eq, Structural)]
pub struct PortalHeights {
    pub ceiling: Fixed,
    pub floor: Fixed,
    pub next_ceiling: Fixed,
    pub next_floor: Fixed,
}

pub open spec fn spec_prepare_portal_wall(
    lens: &Lens,
    frustum: &Polygon,
    window: PortalNode,
    heights: PortalHeights,
    wall: &Wall,
) -> Option<PortalJob> {
    let vs_a = lens.spec_transform_view(wall.segment.a);
    let vs_b = lens.spec_transform_view(wall.segment.b);
    if !RendererState::spec_in_view(frustum, vs_a, vs_b) {
        None
    } else {
        let upper_tex = spec_wall_tex(
            wall.texture_data,
            Vec2f::spec_zero(),
            Vec2f { x: wall.width, y: heights.ceiling.spec_minus(heights.next_ceiling) },
        );
        let lower_tex = spec_wall_tex(
            wall.texture_data,
            Vec2f { x: Fixed::spec_zero(), y: heights.ceiling.spec_minus(heights.next_floor) },
            Vec2f { x: wall.width, y: heights.ceiling.spec_minus(heights.floor) },
        );
        let clip = spec_near_clip(vs_a, vs_b);
        let upper_tex = clip.spec_clip_tex(upper_tex.0, upper_tex.1);
        let lower_tex = clip.spec_clip_tex(lower_tex.0, lower_tex.1);
        let top_a = lens.spec_project_screen_space(clip.a, heights.ceiling);
        let top_b = lens.spec_project_screen_space(clip.b, heights.ceiling);
        if top_a.0.x.raw >= top_b.0.x.raw {
            None
        } else if top_b.0.x.raw < Fixed::spec_from_index(window.x_min).raw || top_a.0.x.raw
            > Fixed::spec_from_index(window.x_max).raw {
            None
        } else {
            let bottom_a = lens.spec_project_screen_space(clip.a, heights.floor);
            let bottom_b = lens.spec_project_screen_space(clip.b, heights.floor);
            let next_top_a = lens.spec_project_screen_space(clip.a, heights.next_ceiling);
            let next_top_b = lens.spec_project_screen_space(clip.b, heights.next_ceiling);
            let next_bottom_a = lens.spec_project_screen_space(clip.a, heights.next_floor);
            let next_bottom_b = lens.spec_project_screen_space(clip.b, heights.next_floor);
            let columns = spec_columns_of(top_a.0.x, top_b.0.x, window);
            let depths = spec_depth_range(
                clip.a,
                clip.b,
                top_a.0.x,
                top_b.0.x,
                columns.0,
                columns.1,
            );
            Some(
                PortalJob {
                    upper: WallInterpolator::spec_new(
                        WallEnd {
                            x: top_a.0.x,
                            top_y: top_a.0.y,
                            bottom_y: next_top_a.0.y,
                            tex: upper_tex.0,
                            inv_depth: top_a.1,
                        },
                        WallEnd {
                            x: top_b.0.x,
                            top_y: top_b.0.y,
                            bottom_y: next_top_b.0.y,
                            tex: upper_tex.1,
                            inv_depth: top_b.1,
                        },
                        Fixed::spec_from_index(columns.0),
                    ),
                    lower: WallInterpolator::spec_new(
                        WallEnd {
                            x: top_a.0.x,
                            top_y: next_bottom_a.0.y,
                            bottom_y: bottom_a.0.y,
                            tex: lower_tex.0,
                            inv_depth: top_a.1,
                        },
                        WallEnd {
                            x: top_b.0.x,
                            top_y: next_bottom_b.0.y,
                            bottom_y: bottom_b.0.y,
                            tex: lower_tex.1,
                            inv_depth: top_b.1,
                        },
                        Fixed::spec_from_index(columns.0),
                    ),
                    lighting: spec_wall_lighting(wall.normal),
                    x_min: columns.0,
                    x_max: columns.1,
                    min_depth: depths.0,
                    max_depth: depths.1,
                },
            )
        }
    }
}

/// Takes a portal wall from the world to the screen as a solid wall is
/// taken, with one interpolator for the band above the opening and one for
/// the band below it.
#[verifier::when_used_as_spec(spec_prepare_portal_wall)]
pub fn prepare_portal_wall(
    lens: &Lens,
    frustum: &Polygon,
    window: PortalNode,
    heights: PortalHeights,
    wall: &Wall,
) -> (r: Option<PortalJob>)
    ensures
        r == spec_prepare_portal_wall(lens, frustum, window, heights, wall),
        r is Some && window.x_min <= window.x_max ==> window.x_min <= r.unwrap().x_min
            <= r.unwrap().x_max <= window.x_max,
{
    let vs_a = lens.transform_view(wall.segment.a);
    let vs_b = lens.transform_view(wall.segment.b);
    if !RendererState::in_view(frustum, vs_a, vs_b) {
        return None;
    }
    let upper_tex = wall_tex(
        wall.texture_data,
        Vec2f::zero(),
        Vec2f { x: wall.width, y: heights.ceiling.minus(heights.next_ceiling) },
    );
    let lower_tex = wall_tex(
        wall.texture_data,
        Vec2f { x: Fixed::zero(), y: heights.ceiling.minus(heights.next_floor) },
        Vec2f { x: wall.width, y: heights.ceiling.minus(heights.floor) },
    );
    let clip = near_clip(vs_a, vs_b);
    let upper_tex = clip.clip_tex(upper_tex.0, upper_tex.1);
    let lower_tex = clip.clip_tex(lower_tex.0, lower_tex.1);
    let top_a = lens.project_screen_space(clip.a, heights.ceiling);
    let top_b = lens.project_screen_space(clip.b, heights.ceiling);
    // A wall that faces away has its ends the other way round.
    if top_a.0.x.raw >= top_b.0.x.raw {
        return None;
    }
    if top_b.0.x.raw < Fixed::from_index(window.x_min).raw || top_a.0.x.raw > Fixed::from_index(
        window.x_max,
    ).raw {
        return None;
    }
    let bottom_a = lens.project_screen_space(clip.a, heights.floor);
    let bottom_b = lens.project_screen_space(clip.b, heights.floor);
    let next_top_a = lens.project_screen_space(clip.a, heights.next_ceiling);
    let next_top_b = lens.project_screen_space(clip.b, heights.next_ceiling);
    let next_bottom_a = lens.project_screen_space(clip.a, heights.next_floor);
    let next_bottom_b = lens.project_screen_space(clip.b, heights.next_floor);
    let columns = columns_of(top_a.0.x, top_b.0.x, window);
    let depths = depth_range(clip.a, clip.b, top_a.0.x, top_b.0.x, columns.0, columns.1);
    let upper = WallInterpolator::new(
        WallEnd {
            x: top_a.0.x,
            top_y: top_a.0.y,
            bottom_y: next_top_a.0.y,
            tex: upper_tex.0,
            inv_depth: top_a.1,
        },
        WallEnd {
            x: top_b.0.x,
            top_y: top_b.0.y,
            bottom_y: next_top_b.0.y,
            tex: upper_tex.1,
            inv_depth: top_b.1,
        },
        Fixed::from_index(columns.0),
    );
    let lower = WallInterpolator::new(
        WallEnd {
            x: top_a.0.x,
            top_y: next_bottom_a.0.y,
            bottom_y: bottom_a.0.y,
            tex: lower_tex.0,
            inv_depth: top_a.1,
        },
        WallEnd {
            x: top_b.0.x,
            top_y: next_bottom_b.0.y,
            bottom_y: bottom_b.0.y,
            tex: lower_tex.1,
            inv_depth: top_b.1,
        },
        Fixed::from_index(columns.0),
    );
    Some(
        PortalJob {
            upper,
            lower,
            lighting: wall_lighting(wall.normal),
            x_min: columns.0,
            x_max: columns.1,
            min_depth: depths.0,
            max_depth: depths.1,
        },
    )
}

/// The node for the window behind a portal wall seen through `parent`.
pub open spec fn child_node(parent: PortalNode, sector: usize, job: PortalJob) -> PortalNode {
    PortalNode {
        tree_depth: (parent.tree_depth + 1) as usize,
        sector_index: sector,
        x_min: job.x_min,
        x_max: job.x_max,
        depth_min: job.min_depth,
        depth_max: job.max_depth,
    }
}

/// The nodes after a portal wall seen through node `index` was drawn: the
/// depth of that node is raised and the window behind the wall is appended.
pub open spec fn nodes_after_portal(
    nodes: Seq<PortalNode>,
    index: int,
    sector: usize,
    job: PortalJob,
) -> Seq<PortalNode> {
    nodes.update(index, raised(nodes[index], job.max_depth)).push(
        child_node(nodes[index], sector, job),
    )
}

impl WallRenderer {
    /// Draws a portal wall of `sector` as seen through the window
    /// `portal_index`: the band between the ceilings and the band between
    /// the floors of the sector and its neighbour. The opening between the
    /// bands becomes a window one depth further down, and a node for it is
    /// appended. A wall that is out of view changes nothing. The depth
    /// below that of the window must be one that rows can be counted for.
    #[verifier::rlimit(80)]
    #[verifier::spinoff_prover]
    pub fn draw_portal_wall(
        &mut self,
        state: &mut RendererState,
        portals: &mut PortalTree,
        portal_index: usize,
        sector: &Sector,
        next_sector: &Sector,
        wall: &Wall,
        upper_texture: &Texture,
        lower_texture: &Texture,
    )
        requires
            old(state).framebuffer.wf(),
            old(portals).wf(),
            old(portals).screen_width == old(state).framebuffer.width,
            old(portals).screen_height == old(state).framebuffer.height,
            portal_index < old(portals).nodes@.len(),
            old(portals).nodes@[portal_index as int].tree_depth + 1 < usize::MAX,
            old(self).wf(old(state).framebuffer.width as int),
            upper_texture.wf(),
            lower_texture.wf(),
        ensures
            final(state).framebuffer.wf(),
            final(state).same_view(old(state)),
            final(portals).wf(),
            final(portals).screen_width == old(portals).screen_width,
            final(portals).screen_height == old(portals).screen_height,
            final(self).wf(old(state).framebuffer.width as int),
            match spec_prepare_portal_wall(
                &old(state).spec_lens(),
                &old(state).frustum,
                old(portals).nodes@[portal_index as int],
                (PortalHeights {
                    ceiling: sector.ceiling.height,
                    floor: sector.floor.height,
                    next_ceiling: next_sector.ceiling.height,
                    next_floor: next_sector.floor.height,
                }),
                wall,
            ) {
                None => {
                    &&& final(state).framebuffer.pixels@ == old(state).framebuffer.pixels@
                    &&& *final(self) == *old(self)
                    &&& *final(portals) == *old(portals)
                },
                Some(job) => {
                    let depth = old(portals).nodes@[portal_index as int].tree_depth as int;
                    &&& final(portals).nodes@ == nodes_after_portal(
                        old(portals).nodes@,
                        portal_index as int,
                        next_sector.id,
                        job,
                    )
                    &&& final(portals).layers() == if depth + 1 < old(portals).layers() {
                        old(portals).layers()
                    } else {
                        depth + 2
                    }
                    &&& forall|d: int|
                        0 <= d < old(portals).layers() && d != depth + 1
                            ==> #[trigger] final(portals).portal_bounds_min@[d] == old(
                            portals,
                        ).portal_bounds_min@[d]
                    &&& forall|d: int|
                        0 <= d < old(portals).layers() && d != depth + 1
                            ==> #[trigger] final(portals).portal_bounds_max@[d] == old(
                            portals,
                        ).portal_bounds_max@[d]
                    &&& final(self).portal_canvas(
                        &final(state).framebuffer,
                        final(portals),
                        depth + 1,
                    ) == portal_columns(
                        (PortalCanvas {
                            pixels: old(state).framebuffer.pixels@,
                            wall_min: old(self).wall_bounds_min@,
                            wall_max: old(self).wall_bounds_max@,
                            child_lo: if depth + 1 < old(portals).layers() {
                                old(portals).portal_bounds_min@[depth + 1]@
                            } else {
                                open_lo(old(portals).screen_width as int)
                            },
                            child_hi: if depth + 1 < old(portals).layers() {
                                old(portals).portal_bounds_max@[depth + 1]@
                            } else {
                                open_hi(
                                    old(portals).screen_width as int,
                                    old(portals).screen_height as int,
                                )
                            },
                        }),
                        old(state).framebuffer.width as int,
                        (PortalLook { upper_texture, lower_texture, lighting: job.lighting }),
                        old(portals).portal_bounds_min@[depth]@,
                        old(portals).portal_bounds_max@[depth]@,
                        job.upper,
                        job.lower,
                        job.x_min as int,
                        job.x_max - job.x_min,
                    )
                },
            },
    {
        let lens = state.lens();
        let node: PortalNode = portals.nodes[portal_index];
        assert(portals.node_ok(node));
        let heights = PortalHeights {
            ceiling: sector.ceiling.height,
            floor: sector.floor.height,
            next_ceiling: next_sector.ceiling.height,
            next_floor: next_sector.floor.height,
        };
        let job = match prepare_portal_wall(&lens, &state.frustum, node, heights, wall) {
            Some(job) => job,
            None => {
                return ;
            },
        };
        let current_tree_depth: usize = node.tree_depth;
        portals.note_portal(
            portal_index,
            job.max_depth,
            PortalNode {
                tree_depth: current_tree_depth + 1,
                sector_index: next_sector.id,
                x_min: job.x_min,
                x_max: job.x_max,
                depth_min: job.min_depth,
                depth_max: job.max_depth,
            },
        );
        let look = PortalLook { upper_texture, lower_texture, lighting: job.lighting };
        self.rasterise_portal_wall(
            &mut state.framebuffer,
            portals,
            current_tree_depth,
            job.upper,
            job.lower,
            &look,
            job.x_min,
            job.x_max,
        );
    }
}

/// The rows of a column of a portal wall are in order and inside the
/// window.
pub proof fn lemma_portal_rows_in_order(
    upper: &WallInterpolator,
    lower: &WallInterpolator,
    lo: u16,
    hi: u16,
)
    requires
        lo <= hi,
    ensures
        ({
            let rows = spec_portal_rows(upper, lower, lo, hi);
            lo <= rows.upper_y_min <= rows.upper_y_max <= rows.lower_y_min <= rows.lower_y_max
                <= hi
        }),
{
}

/// What the first `n` columns of a portal wall leave as they were and what
/// they keep true: the sizes; every pixel outside the window of its column
/// and every pixel outside the columns drawn; the wall bounds and the
/// window behind the wall in every other column. In the columns drawn the
/// wall bounds lie inside the window in order, and the window behind the
/// wall lies inside the window in order.
#[verifier::rlimit(80)]
#[verifier::spinoff_prover]
pub proof fn lemma_portal_columns_frame(
    canvas: PortalCanvas,
    width: int,
    height: int,
    look: PortalLook,
    lo: Seq<u16>,
    hi: Seq<u16>,
    upper: WallInterpolator,
    lower: WallInterpolator,
    x_min: int,
    n: int,
)
    requires
        0 <= x_min,
        0 <= n,
        x_min + n <= width,
        canvas.pixels.len() == width * height,
        canvas.wall_min.len() == width,
        canvas.wall_max.len() == width,
        canvas.child_lo.len() == width,
        canvas.child_hi.len() == width,
        lo.len() == width,
        hi.len() == width,
        window_ok(lo, hi, x_min, x_min + n, height),
    ensures
        ({
            let after = portal_columns(canvas, width, look, lo, hi, upper, lower, x_min, n);
            &&& after.pixels.len() == canvas.pixels.len()
            &&& after.wall_min.len() == width
            &&& after.wall_max.len() == width
            &&& after.child_lo.len() == width
            &&& after.child_hi.len() == width
            &&& forall|i: int, j: int|
                0 <= i < width && 0 <= j < height && !(x_min <= i < x_min + n && lo[i] <= j
                    < hi[i]) ==> #[trigger] grid_pixel(after.pixels, width, i, j) == grid_pixel(
                    canvas.pixels,
                    width,
                    i,
                    j,
                )
            &&& forall|i: int|
                0 <= i < width && !(x_min <= i < x_min + n) ==> #[trigger] after.wall_min[i]
                    == canvas.wall_min[i]
            &&& forall|i: int|
                0 <= i < width && !(x_min <= i < x_min + n) ==> #[trigger] after.wall_max[i]
                    == canvas.wall_max[i]
            &&& forall|i: int|
                0 <= i < width && !(x_min <= i < x_min + n) ==> #[trigger] after.child_lo[i]
                    == canvas.child_lo[i]
            &&& forall|i: int|
                0 <= i < width && !(x_min <= i < x_min + n) ==> #[trigger] after.child_hi[i]
                    == canvas.child_hi[i]
            &&& forall|i: int|
                x_min <= i < x_min + n ==> lo[i] <= (#[trigger] after.wall_min[i])
                    && after.wall_min[i] <= after.child_lo[i] && after.child_lo[i]
                    <= after.child_hi[i] && after.child_hi[i] <= after.wall_max[i]
                    && after.wall_max[i] <= hi[i]
        }),
    decreases n,
{
    if n > 0 {
        lemma_portal_columns_frame(canvas, width, height, look, lo, hi, upper, lower, x_min, n - 1);
        let prev = portal_columns(canvas, width, look, lo, hi, upper, lower, x_min, n - 1);
        let after = portal_columns(canvas, width, look, lo, hi, upper, lower, x_min, n);
        let x = x_min + n - 1;
        let u = upper.stepped(n - 1);
        let l = lower.stepped(n - 1);
        assert(lo[x] <= hi[x] && hi[x] <= height);
        let rows = spec_portal_rows(&u, &l, lo[x], hi[x]);
        lemma_portal_rows_in_order(&u, &l, lo[x], hi[x]);
        let above = span_drawn(
            prev.pixels,
            width,
            look.upper_texture,
            u.spec_shade(look.upper_texture, look.lighting),
            x,
            rows.upper_y_min as int,
            u.spec_init_y(rows.upper_y_min),
            rows.upper_y_max - rows.upper_y_min,
        );
        lemma_span_frame(
            prev.pixels,
            width,
            height,
            look.upper_texture,
            u.spec_shade(look.upper_texture, look.lighting),
            x,
            rows.upper_y_min as int,
            u.spec_init_y(rows.upper_y_min),
            rows.upper_y_max - rows.upper_y_min,
        );
        lemma_span_frame(
            above,
            width,
            height,
            look.lower_texture,
            l.spec_shade(look.lower_texture, look.lighting),
            x,
            rows.lower_y_min as int,
            l.spec_init_y(rows.lower_y_min),
            rows.lower_y_max - rows.lower_y_min,
        );
        assert forall|i: int, j: int|
            0 <= i < width && 0 <= j < height && !(x_min <= i < x_min + n && lo[i] <= j
                < hi[i]) implies #[trigger] grid_pixel(after.pixels, width, i, j) == grid_pixel(
            canvas.pixels,
            width,
            i,
            j,
        ) by {
            assert(grid_pixel(prev.pixels, width, i, j) == grid_pixel(canvas.pixels, width, i, j));
            assert(grid_pixel(above, width, i, j) == grid_pixel(prev.pixels, width, i, j));
        }
        assert(after.wall_min == prev.wall_min.update(x, rows.upper_y_min as u16));
        assert(after.wall_max == prev.wall_max.update(x, rows.lower_y_max as u16));
        assert(after.child_lo == prev.child_lo.update(x, rows.upper_y_max as u16));
        assert(after.child_hi == prev.child_hi.update(x, rows.lower_y_min as u16));
        assert forall|i: int| x_min <= i < x_min + n implies lo[i] <= (#[trigger] after.wall_min[i])
            && after.wall_min[i] <= after.child_lo[i] && after.child_lo[i] <= after.child_hi[i]
            && after.child_hi[i] <= after.wall_max[i] && after.wall_max[i] <= hi[i] by {
            if i < x {
                assert(lo[i] <= prev.wall_min[i]);
                assert(after.wall_min[i] == prev.wall_min[i]);
                assert(after.wall_max[i] == prev.wall_max[i]);
                assert(after.child_lo[i] == prev.child_lo[i]);
                assert(after.child_hi[i] == prev.child_hi[i]);
            }
        }
        assert forall|i: int| 0 <= i < width && !(x_min <= i < x_min + n) implies #[trigger] after.wall_min[i]
            == canvas.wall_min[i] by {
            assert(prev.wall_min[i] == canvas.wall_min[i]);
        }
        assert forall|i: int| 0 <= i < width && !(x_min <= i < x_min + n) implies #[trigger] after.wall_max[i]
            == canvas.wall_max[i] by {
            assert(prev.wall_max[i] == canvas.wall_max[i]);
        }
        assert forall|i: int| 0 <= i < width && !(x_min <= i < x_min + n) implies #[trigger] after.child_lo[i]
            == canvas.child_lo[i] by {
            assert(prev.child_lo[i] == canvas.child_lo[i]);
        }
        assert forall|i: int| 0 <= i < width && !(x_min <= i < x_min + n) implies #[trigger] after.child_hi[i]
            == canvas.child_hi[i] by {
            assert(prev.child_hi[i] == canvas.child_hi[i]);
        }
    }
}

/// The columns of a solid wall that is in view lie inside the window, in
/// order.
pub proof fn lemma_prepared_wall_columns(
    lens: &Lens,
    frustum: &Polygon,
    window: PortalNode,
    ceiling: Fixed,
    floor: Fixed,
    wall: &Wall,
)
    requires
        window.x_min <= window.x_max,
    ensures
        spec_prepare_wall(lens, frustum, window, ceiling, floor, wall) is Some ==> {
            let job = spec_prepare_wall(lens, frustum, window, ceiling, floor, wall).unwrap();
            window.x_min <= job.x_min <= job.x_max <= window.x_max
        },
{
    if spec_prepare_wall(lens, frustum, window, ceiling, floor, wall) is Some {
        let vs_a = lens.spec_transform_view(wall.segment.a);
        let vs_b = lens.spec_transform_view(wall.segment.b);
        let clip = spec_near_clip(vs_a, vs_b);
        let top_a = lens.spec_project_screen_space(clip.a, ceiling);
        let top_b = lens.spec_project_screen_space(clip.b, ceiling);
        crate::fixed::lemma_to_index_monotone(top_a.0.x, top_b.0.x, MAX_SIDE);
    }
}

/// The columns of a portal wall that is in view lie inside the window, in
/// order.
pub proof fn lemma_prepared_portal_columns(
    lens: &Lens,
    frustum: &Polygon,
    window: PortalNode,
    heights: PortalHeights,
    wall: &Wall,
)
    requires
        window.x_min <= window.x_max,
    ensures
        spec_prepare_portal_wall(lens, frustum, window, heights, wall) is Some ==> {
            let job = spec_prepare_portal_wall(lens, frustum, window, heights, wall).unwrap();
            window.x_min <= job.x_min <= job.x_max <= window.x_max
        },
{
    if spec_prepare_portal_wall(lens, frustum, window, heights, wall) is Some {
        let vs_a = lens.spec_transform_view(wall.segment.a);
        let vs_b = lens.spec_transform_view(wall.segment.b);
        let clip = spec_near_clip(vs_a, vs_b);
        let top_a = lens.spec_project_screen_space(clip.a, heights.ceiling);
        let top_b = lens.spec_project_screen_space(clip.b, heights.ceiling);
        crate::fixed::lemma_to_index_monotone(top_a.0.x, top_b.0.x, MAX_SIDE);
    }
}

} // verus!
