//! Floors and ceilings, drawn row by row.

use vstd::prelude::*;
use crate::colour::BGRA8;
use crate::consts::far;
use crate::consts::mip_scale;
use crate::consts::near;
use crate::consts::MIP_LEVELS;
use crate::fixed::Fixed;
use crate::maths::mat::Mat2f;
use crate::maths::vec::Vec2f;
use crate::renderer::framebuffer::Framebuffer;
use crate::renderer::portal::filled_row;
use crate::renderer::portal::PortalNode;
use crate::renderer::state::Lens;
use crate::renderer::state::RendererState;
use crate::renderer::util::diminish_lighting;
use crate::renderer::util::light_level;
use crate::renderer::util::mip_level;
use crate::renderer::util::normalise_depth;
use crate::renderer::util::wrap_texel;
use crate::textures::Texture;

verus! {

/// The texture coordinates along a row, stepped column by column.
#[derive(Clone, Copy, Debug, PartialEq, Eq, Structural)]
pub struct UvStepper {
    pub u: Fixed,
    pub v: Fixed,
    /// Change of `u` from one column to the next.
    pub u_m: Fixed,
    /// Change of `v` from one column to the next.
    pub v_m: Fixed,
}

impl UvStepper {
    pub open spec fn spec_step_x(self) -> UvStepper {
        UvStepper { u: self.u.spec_plus(self.u_m), v: self.v.spec_plus(self.v_m), ..self }
    }

    /// Moves one column to the right.
    pub fn step_x(&mut self)
        ensures
            *final(self) == old(self).spec_step_x(),
    {
        self.u = self.u.plus(self.u_m);
        self.v = self.v.plus(self.v_m);
    }

    /// The stepper `k` columns further to the right.
    pub open spec fn after(self, k: int) -> UvStepper
        decreases k,
    {
        if k <= 0 {
            self
        } else {
            self.after(k - 1).spec_step_x()
        }
    }
}

/// The plane that is drawn: where it lies and what it shows.
pub struct PlaneLook<'a> {
    pub lens: Lens,
    /// Height of the eye above the plane; negative for a ceiling.
    pub height_offset: Fixed,
    pub texture: &'a Texture,
    pub texture_offset: Vec2f,
    pub texture_scale_rotate: Mat2f,
}

/// What is the same for every pixel of one row of a plane.
#[derive(Clone, Copy, Debug, PartialEq, Eq, Structural)]
pub struct RowShade {
    pub level: usize,
    pub light: u8,
}

/// The colour of one pixel of a row: the texel that `uv` selects, darkened
/// by the light of the row, and opaque whatever the texture.
pub open spec fn spec_row_texel(texture: &Texture, shade: RowShade, uv: UvStepper) -> BGRA8 {
    texture.texel(
        wrap_texel(uv.u.spec_floor(), texture.levels@[shade.level as int].width) as int,
        wrap_texel(uv.v.spec_floor(), texture.levels@[shade.level as int].height) as int,
        shade.level as int,
    ).spec_darken(shade.light).spec_opaque()
}

/// Computes [`spec_row_texel`].
#[verifier::when_used_as_spec(spec_row_texel)]
pub fn row_texel(texture: &Texture, shade: RowShade, uv: UvStepper) -> (c: BGRA8)
    requires
        texture.wf(),
        shade.level < MIP_LEVELS,
    ensures
        c == spec_row_texel(texture, shade, uv),
        c.a == 0xFF,
{
    let width: usize = texture.levels[shade.level].width;
    let height: usize = texture.levels[shade.level].height;
    let texture_x: usize = wrap_texel(uv.u.floor(), width);
    let texture_y: usize = wrap_texel(uv.v.floor(), height);
    texture.sample(texture_x, texture_y, shade.level).darken(shade.light).opaque()
}

/// The pixels after the first `k` pixels of a row have been drawn: columns
/// `x_min` to `x_min + k - 1` of row `y`.
pub open spec fn row_drawn(
    pixels: Seq<BGRA8>,
    width: int,
    texture: &Texture,
    shade: RowShade,
    y: int,
    x_min: int,
    uv: UvStepper,
    k: int,
) -> Seq<BGRA8>
    decreases k,
{
    if k <= 0 {
        pixels
    } else {
        row_drawn(pixels, width, texture, shade, y, x_min, uv, k - 1).update(
            y * width + (x_min + k - 1),
            spec_row_texel(texture, shade, uv.after(k - 1)),
        )
    }
}

/// How a row of a plane is to be drawn, if it is to be drawn at all.
#[derive(Clone, Copy, Debug, PartialEq, Eq, Structural)]
pub struct RowJob {
    pub shade: RowShade,
    pub uv: UvStepper,
}

impl<'a> PlaneLook<'a> {
    pub open spec fn spec_texture_point(&self, x: usize, depth: Fixed, scale: Fixed) -> Vec2f {
        let ws = Vec2f {
            x: Fixed::spec_from_index(x).spec_minus(self.lens.half_width).spec_times(
                depth,
            ).spec_over(self.lens.focal_width),
            y: depth.spec_neg(),
        }.spec_rotate(self.lens.camera.yaw_sin, self.lens.camera.yaw_cos).spec_plus(
            Vec2f { x: self.lens.camera.position.x, y: self.lens.camera.position.y.spec_neg() },
        );
        self.texture_scale_rotate.spec_apply(ws).spec_plus(self.texture_offset).spec_scaled(scale)
    }

    /// The texture coordinates of the point of the plane that is seen in
    /// column `x` at depth `depth`: the point of the world found by undoing
    /// the projection, put through the matrix of the texture, moved by its
    /// offset, and scaled to the mip level.
    #[verifier::when_used_as_spec(spec_texture_point)]
    pub fn texture_point(&self, x: usize, depth: Fixed, scale: Fixed) -> (r: Vec2f)
        ensures
            r == self.spec_texture_point(x, depth, scale),
    {
        let ws = Vec2f {
            x: Fixed::from_index(x).minus(self.lens.half_width).times(depth).over(
                self.lens.focal_width,
            ),
            y: depth.neg(),
        }.rotate(self.lens.camera.yaw_sin, self.lens.camera.yaw_cos).plus(
            Vec2f { x: self.lens.camera.position.x, y: self.lens.camera.position.y.neg() },
        );
        self.texture_scale_rotate.apply(ws).plus(self.texture_offset).scaled(scale)
    }

    pub open spec fn spec_row_job(&self, ratio: Fixed, x_min: usize, x_max: usize) -> Option<
        RowJob,
    > {
        let depth = ratio.spec_times(self.height_offset);
        if x_max <= x_min {
            None
        } else if depth.raw < near().raw || depth.raw > far().raw {
            None
        } else {
            let normal_depth = normalise_depth(depth);
            let level = mip_level(normal_depth, ratio.spec_abs());
            let scale = mip_scale(level);
            let a = self.spec_texture_point(x_min, depth, scale);
            let b = self.spec_texture_point(x_max, depth, scale);
            let x_delta = Fixed::spec_from_index((x_max - x_min) as usize);
            Some(
                RowJob {
                    shade: RowShade { level, light: light_level(diminish_lighting(normal_depth)) },
                    uv: UvStepper {
                        u: a.x,
                        v: a.y,
                        u_m: b.x.spec_minus(a.x).spec_over(x_delta),
                        v_m: b.y.spec_minus(a.y).spec_over(x_delta),
                    },
                },
            )
        }
    }

    /// How to draw the row whose focal height ratio is `ratio` from column
    /// `x_min` up to `x_max`: nothing for an empty span or a depth outside
    /// the near and far planes; else the mip level from the depth and the
    /// slope, the light from the depth, and the texture coordinates
    /// interpolated between the two ends of the span.
    #[verifier::when_used_as_spec(spec_row_job)]
    pub fn row_job(&self, ratio: Fixed, x_min: usize, x_max: usize) -> (r: Option<RowJob>)
        ensures
            r == self.spec_row_job(ratio, x_min, x_max),
            r is Some ==> r.unwrap().shade.level < MIP_LEVELS && x_min < x_max,
    {
        if x_max <= x_min {
            return None;
        }
        let depth = ratio.times(self.height_offset);
        // At the horizon the depth grows without bound.
        if depth.raw < near().raw || depth.raw > far().raw {
            return None;
        }
        let normal_depth = normalise_depth(depth);
        let level = mip_level(normal_depth, ratio.abs());
        let scale = mip_scale(level);
        let a = self.texture_point(x_min, depth, scale);
        let b = self.texture_point(x_max, depth, scale);
        let x_delta = Fixed::from_index(x_max - x_min);
        Some(
            RowJob {
                shade: RowShade { level, light: light_level(diminish_lighting(normal_depth)) },
                uv: UvStepper {
                    u: a.x,
                    v: a.y,
                    u_m: b.x.minus(a.x).over(x_delta),
                    v_m: b.y.minus(a.y).over(x_delta),
                },
            },
        )
    }
}

/// The pixels after the span of row `y` from column `x_min` up to `x_max`
/// has been drawn.
pub open spec fn plane_span_drawn(
    pixels: Seq<BGRA8>,
    width: int,
    look: &PlaneLook,
    ratio: Fixed,
    y: int,
    x_min: usize,
    x_max: usize,
) -> Seq<BGRA8> {
    match look.spec_row_job(ratio, x_min, x_max) {
        None => pixels,
        Some(job) => row_drawn(
            pixels,
            width,
            look.texture,
            job.shade,
            y,
            x_min as int,
            job.uv,
            x_max - x_min,
        ),
    }
}

/// The pixels, the start column of every open row, and the rows that are
/// open, while a plane is swept from left to right.
pub struct PlaneSweep {
    pub pixels: Seq<BGRA8>,
    pub span_start: Seq<u16>,
    /// First open row.
    pub y_min: int,
    /// Row after the last open row.
    pub y_max: int,
}

/// The span starts after the `k` rows above row `y_min` have been opened at
/// column `x`.
pub open spec fn starts_above(span_start: Seq<u16>, y_min: int, x: u16, k: int) -> Seq<u16>
    decreases k,
{
    if k <= 0 {
        span_start
    } else {
        starts_above(span_start, y_min, x, k - 1).update(y_min - k, x)
    }
}

/// The span starts after the `k` rows from row `y_max` on have been opened
/// at column `x`.
pub open spec fn starts_below(span_start: Seq<u16>, y_max: int, x: u16, k: int) -> Seq<u16>
    decreases k,
{
    if k <= 0 {
        span_start
    } else {
        starts_below(span_start, y_max, x, k - 1).update(y_max + k - 1, x)
    }
}

/// The pixels after the `k` rows from row `y_min` on have been closed at
/// column `x`: each is drawn from its start column up to `x`.
pub open spec fn rows_closed_above(
    pixels: Seq<BGRA8>,
    span_start: Seq<u16>,
    width: int,
    look: &PlaneLook,
    ratios: Seq<Fixed>,
    x: usize,
    y_min: int,
    k: int,
) -> Seq<BGRA8>
    decreases k,
{
    if k <= 0 {
        pixels
    } else {
        plane_span_drawn(
            rows_closed_above(pixels, span_start, width, look, ratios, x, y_min, k - 1),
            width,
            look,
            ratios[y_min + k - 1],
            y_min + k - 1,
            span_start[y_min + k - 1] as usize,
            x,
        )
    }
}

/// The pixels after the `k` rows above row `y_max` have been closed at
/// column `x`, the lowest first: each is drawn from its start column up to
/// `x`.
pub open spec fn rows_closed_below(
    pixels: Seq<BGRA8>,
    span_start: Seq<u16>,
    width: int,
    look: &PlaneLook,
    ratios: Seq<Fixed>,
    x: usize,
    y_max: int,
    k: int,
) -> Seq<BGRA8>
    decreases k,
{
    if k <= 0 {
        pixels
    } else {
        plane_span_drawn(
            rows_closed_below(pixels, span_start, width, look, ratios, x, y_max, k - 1),
            width,
            look,
            ratios[y_max - k],
            y_max - k,
            span_start[y_max - k] as usize,
            x,
        )
    }
}

/// `a - b`, or zero if that is negative.
pub open spec fn excess(a: int, b: int) -> int {
    if a > b {
        a - b
    } else {
        0
    }
}

/// The sweep after column `x`, whose plane lies in the rows from `lo` up
/// to `hi`: rows that the plane gains are opened at `x`, then rows that it
/// loses are closed at `x`.
pub open spec fn plane_column(
    sweep: PlaneSweep,
    width: int,
    look: &PlaneLook,
    ratios: Seq<Fixed>,
    x: usize,
    lo: u16,
    hi: u16,
) -> PlaneSweep {
    let gained_above = excess(sweep.y_min, lo as int);
    let gained_below = excess(hi as int, sweep.y_max);
    let starts = starts_below(
        starts_above(sweep.span_start, sweep.y_min, x as u16, gained_above),
        sweep.y_max,
        x as u16,
        gained_below,
    );
    let y_min = sweep.y_min - gained_above;
    let y_max = sweep.y_max + gained_below;
    let lost_above = excess(lo as int, y_min);
    let lost_below = excess(y_max, hi as int);
    PlaneSweep {
        pixels: rows_closed_below(
            rows_closed_above(sweep.pixels, starts, width, look, ratios, x, y_min, lost_above),
            starts,
            width,
            look,
            ratios,
            x,
            y_max,
            lost_below,
        ),
        span_start: starts,
        y_min: y_min + lost_above,
        y_max: y_max - lost_below,
    }
}

/// The sweep after the first `n` columns from column `x_min` on.
pub open spec fn plane_swept(
    sweep: PlaneSweep,
    width: int,
    look: &PlaneLook,
    ratios: Seq<Fixed>,
    lo: Seq<u16>,
    hi: Seq<u16>,
    x_min: int,
    n: int,
) -> PlaneSweep
    decreases n,
{
    if n <= 0 {
        sweep
    } else {
        plane_column(
            plane_swept(sweep, width, look, ratios, lo, hi, x_min, n - 1),
            width,
            look,
            ratios,
            (x_min + n - 1) as usize,
            lo[x_min + n - 1],
            hi[x_min + n - 1],
        )
    }
}

/// The canvas of a plane after it has been drawn through the window from
/// column `x_min` up to `x_max`: swept from left to right, and the rows
/// still open at the end closed at `x_max`. An empty window draws nothing.
pub open spec fn plane_drawn(
    pixels: Seq<BGRA8>,
    span_start: Seq<u16>,
    width: int,
    look: &PlaneLook,
    ratios: Seq<Fixed>,
    lo: Seq<u16>,
    hi: Seq<u16>,
    x_min: usize,
    x_max: usize,
) -> PlaneSweep {
    if x_min >= x_max {
        PlaneSweep { pixels, span_start, y_min: 0, y_max: 0 }
    } else {
        let swept = plane_swept(
            PlaneSweep { pixels, span_start, y_min: lo[x_min as int] as int, y_max: lo[x_min as int] as int },
            width,
            look,
            ratios,
            lo,
            hi,
            x_min as int,
            x_max - x_min,
        );
        PlaneSweep {
            pixels: rows_closed_above(
                swept.pixels,
                swept.span_start,
                width,
                look,
                ratios,
                x_max,
                swept.y_min,
                excess(swept.y_max, swept.y_min),
            ),
            ..swept
        }
    }
}

/// In every column from `x_min` up to `x_max` both bounds are on the
/// screen.
pub open spec fn rows_on_screen(lo: Seq<u16>, hi: Seq<u16>, x_min: int, x_max: int, height: int)
    -> bool {
    forall|x: int| x_min <= x < x_max ==> (#[trigger] lo[x]) <= height && hi[x] <= height
}

/// Draws floors and ceilings in the rows that the walls of a sector leave
/// free.
pub struct PlaneRenderer {
    /// For each row, the column at which the span that is open in that row
    /// starts.
    pub span_start: Vec<u16>,
    /// For each row, the focal height over the distance of the row from the
    /// horizon, or zero at the horizon. Times the height of the eye above a
    /// plane this is the depth at which the plane is seen in that row.
    pub focal_height_ratios: Vec<Fixed>,
}

/// The focal height ratio of row `y`.
pub open spec fn spec_focal_height_ratio(lens: &Lens, y: usize) -> Fixed {
    let y_offset = Fixed::spec_from_index(y).spec_minus(lens.half_height).spec_minus(
        lens.pitch_shear,
    );
    if y_offset.raw == 0 {
        Fixed::spec_zero()
    } else {
        lens.focal_height.spec_over(y_offset)
    }
}

/// The focal height ratio of row `y`: the focal height over the distance of
/// the row from the horizon, or zero at the horizon.
#[verifier::when_used_as_spec(spec_focal_height_ratio)]
pub fn focal_height_ratio(lens: &Lens, y: usize) -> (r: Fixed)
    ensures
        r == spec_focal_height_ratio(lens, y),
{
    let y_offset = Fixed::from_index(y).minus(lens.half_height).minus(lens.pitch_shear);
    if y_offset.raw == 0 {
        Fixed::zero()
    } else {
        lens.focal_height.over(y_offset)
    }
}

impl PlaneRenderer {
    /// Both rows have one entry per screen row.
    pub open spec fn wf(&self, height: int) -> bool {
        self.span_start@.len() == height && self.focal_height_ratios@.len() == height
    }

    /// The focal height ratios are those of `lens`.
    pub open spec fn ratios_of(&self, lens: &Lens) -> bool {
        forall|y: int|
            0 <= y < self.focal_height_ratios@.len() ==> #[trigger] self.focal_height_ratios@[y]
                == spec_focal_height_ratio(lens, y as usize)
    }

    /// Scratch rows for a screen of the size of `state`.
    pub fn new(state: &RendererState) -> (r: PlaneRenderer)
        ensures
            r.wf(state.framebuffer.height as int),
            forall|y: int| 0 <= y < state.framebuffer.height ==> r.span_start@[y] == 0,
            forall|y: int|
                0 <= y < state.framebuffer.height ==> r.focal_height_ratios@[y]
                    == Fixed::spec_zero(),
    {
        let height: usize = state.framebuffer.height();
        let mut ratios: Vec<Fixed> = Vec::new();
        while ratios.len() < height
            invariant
                ratios@.len() <= height,
                forall|y: int| 0 <= y < ratios@.len() ==> ratios@[y] == Fixed::spec_zero(),
            decreases height - ratios.len(),
        {
            ratios.push(Fixed::zero());
        }
        PlaneRenderer { span_start: filled_row(height, 0), focal_height_ratios: ratios }
    }

    /// Takes the screen size of `state`: the scratch rows are made anew.
    pub fn set_viewport(&mut self, state: &RendererState)
        ensures
            final(self).wf(state.framebuffer.height as int),
            forall|y: int| 0 <= y < state.framebuffer.height ==> final(self).span_start@[y] == 0,
            forall|y: int|
                0 <= y < state.framebuffer.height ==> final(self).focal_height_ratios@[y]
                    == Fixed::spec_zero(),
    {
        let fresh = Self::new(state);
        self.span_start = fresh.span_start;
        self.focal_height_ratios = fresh.focal_height_ratios;
    }

    /// Sets the focal height ratio of every row from the lens of `state`.
    pub fn update(&mut self, state: &RendererState)
        requires
            old(self).wf(state.framebuffer.height as int),
        ensures
            final(self).wf(state.framebuffer.height as int),
            final(self).span_start@ == old(self).span_start@,
            final(self).ratios_of(&state.spec_lens()),
    {
        let lens = state.lens();
        let height: usize = state.framebuffer.height();
        let mut y: usize = 0;
        while y < height
            invariant
                y <= height,
                height == state.framebuffer.height,
                lens == state.spec_lens(),
                self.wf(height as int),
                self.span_start@ == old(self).span_start@,
                forall|k: int|
                    0 <= k < y ==> #[trigger] self.focal_height_ratios@[k]
                        == spec_focal_height_ratio(&lens, k as usize),
            decreases height - y,
        {
            self.focal_height_ratios[y] = focal_height_ratio(&lens, y);
            y = y + 1;
        }
    }

    /// Draws the span of row `y` from column `x_min` up to `x_max`.
    pub fn rasterise_plane_span(
        &self,
        framebuffer: &mut Framebuffer,
        look: &PlaneLook,
        y: usize,
        x_min: usize,
        x_max: usize,
    )
        requires
            old(framebuffer).wf(),
            self.wf(old(framebuffer).height as int),
            look.texture.wf(),
            y < old(framebuffer).height,
            x_max <= old(framebuffer).width,
        ensures
            final(framebuffer).wf(),
            final(framebuffer).width == old(framebuffer).width,
            final(framebuffer).height == old(framebuffer).height,
            final(framebuffer).pixels@ == plane_span_drawn(
                old(framebuffer).pixels@,
                old(framebuffer).width as int,
                look,
                self.focal_height_ratios@[y as int],
                y as int,
                x_min,
                x_max,
            ),
    {
        let job = match look.row_job(self.focal_height_ratios[y], x_min, x_max) {
            Some(job) => job,
            None => {
                return ;
            },
        };
        let mut uv = job.uv;
        let mut x: usize = x_min;
        while x < x_max
            invariant
                x_min <= x <= x_max <= framebuffer.width,
                framebuffer.wf(),
                framebuffer.width == old(framebuffer).width,
                framebuffer.height == old(framebuffer).height,
                y < framebuffer.height,
                look.texture.wf(),
                job.shade.level < MIP_LEVELS,
                uv == job.uv.after(x - x_min),
                framebuffer.pixels@ == row_drawn(
                    old(framebuffer).pixels@,
                    old(framebuffer).width as int,
                    look.texture,
                    job.shade,
                    y as int,
                    x_min as int,
                    job.uv,
                    x - x_min,
                ),
            decreases x_max - x,
        {
            let colour = row_texel(look.texture, job.shade, uv);
            framebuffer.set_pixel_unchecked(x, y, colour);
            uv.step_x();
            x = x + 1;
        }
    }
}

impl PlaneRenderer {
    /// The sweep made of the pixels of `framebuffer`, the span starts and
    /// the open rows from `y_min` up to `y_max`.
    pub open spec fn sweep(&self, framebuffer: &Framebuffer, y_min: u16, y_max: u16) -> PlaneSweep {
        PlaneSweep {
            pixels: framebuffer.pixels@,
            span_start: self.span_start@,
            y_min: y_min as int,
            y_max: y_max as int,
        }
    }

    /// Opens the rows from `bound` up to `y_min` at column `x`, and gives
    /// the new first open row.
    fn open_above(&mut self, y_min: u16, bound: u16, x: u16) -> (r: u16)
        requires
            y_min <= old(self).span_start@.len(),
        ensures
            final(self).focal_height_ratios == old(self).focal_height_ratios,
            final(self).span_start@.len() == old(self).span_start@.len(),
            r == y_min - excess(y_min as int, bound as int),
            final(self).span_start@ == starts_above(
                old(self).span_start@,
                y_min as int,
                x,
                excess(y_min as int, bound as int),
            ),
    {
        let mut y: u16 = y_min;
        while bound < y
            invariant
                y <= y_min <= self.span_start@.len(),
                bound < y_min ==> bound <= y,
                bound >= y_min ==> y == y_min,
                self.focal_height_ratios == old(self).focal_height_ratios,
                self.span_start@.len() == old(self).span_start@.len(),
                self.span_start@ == starts_above(old(self).span_start@, y_min as int, x, y_min - y),
            decreases y,
        {
            y = y - 1;
            self.span_start[y as usize] = x;
        }
        y
    }

    /// Opens the rows from `y_max` up to `bound` at column `x`, and gives
    /// the new row after the last open row.
    fn open_below(&mut self, y_max: u16, bound: u16, x: u16) -> (r: u16)
        requires
            bound <= old(self).span_start@.len(),
        ensures
            final(self).focal_height_ratios == old(self).focal_height_ratios,
            final(self).span_start@.len() == old(self).span_start@.len(),
            r == y_max + excess(bound as int, y_max as int),
            final(self).span_start@ == starts_below(
                old(self).span_start@,
                y_max as int,
                x,
                excess(bound as int, y_max as int),
            ),
    {
        let mut y: u16 = y_max;
        while bound > y
            invariant
                y_max <= y,
                bound > y_max ==> y <= bound,
                bound <= y_max ==> y == y_max,
                bound <= self.span_start@.len(),
                self.focal_height_ratios == old(self).focal_height_ratios,
                self.span_start@.len() == old(self).span_start@.len(),
                self.span_start@ == starts_below(old(self).span_start@, y_max as int, x, y - y_max),
            decreases bound - y,
        {
            self.span_start[y as usize] = x;
            y = y + 1;
        }
        y
    }

    /// Closes the open rows from `y_min` up to `bound` at column `x`: each
    /// is drawn from its start column up to `x`. Gives the new first open
    /// row.
    fn close_above(
        &self,
        framebuffer: &mut Framebuffer,
        look: &PlaneLook,
        y_min: u16,
        bound: u16,
        x: usize,
    ) -> (r: u16)
        requires
            old(framebuffer).wf(),
            self.wf(old(framebuffer).height as int),
            look.texture.wf(),
            bound <= old(framebuffer).height,
            x <= old(framebuffer).width,
        ensures
            final(framebuffer).wf(),
            final(framebuffer).width == old(framebuffer).width,
            final(framebuffer).height == old(framebuffer).height,
            r == y_min + excess(bound as int, y_min as int),
            final(framebuffer).pixels@ == rows_closed_above(
                old(framebuffer).pixels@,
                self.span_start@,
                old(framebuffer).width as int,
                look,
                self.focal_height_ratios@,
                x,
                y_min as int,
                excess(bound as int, y_min as int),
            ),
    {
        let mut y: u16 = y_min;
        while bound > y
            invariant
                y_min <= y,
                bound > y_min ==> y <= bound,
                bound <= y_min ==> y == y_min,
                framebuffer.wf(),
                framebuffer.width == old(framebuffer).width,
                framebuffer.height == old(framebuffer).height,
                self.wf(framebuffer.height as int),
                look.texture.wf(),
                bound <= framebuffer.height,
                x <= framebuffer.width,
                framebuffer.pixels@ == rows_closed_above(
                    old(framebuffer).pixels@,
                    self.span_start@,
                    old(framebuffer).width as int,
                    look,
                    self.focal_height_ratios@,
                    x,
                    y_min as int,
                    y - y_min,
                ),
            decreases bound - y,
        {
            let start: usize = self.span_start[y as usize] as usize;
            self.rasterise_plane_span(framebuffer, look, y as usize, start, x);
            y = y + 1;
        }
        y
    }

    /// Closes the open rows from `bound` up to `y_max` at column `x`, last
    /// row first: each is drawn from its start column up to `x`. Gives the
    /// new row after the last open row.
    fn close_below(
        &self,
        framebuffer: &mut Framebuffer,
        look: &PlaneLook,
        y_max: u16,
        bound: u16,
        x: usize,
    ) -> (r: u16)
        requires
            old(framebuffer).wf(),
            self.wf(old(framebuffer).height as int),
            look.texture.wf(),
            y_max <= old(framebuffer).height,
            x <= old(framebuffer).width,
        ensures
            final(framebuffer).wf(),
            final(framebuffer).width == old(framebuffer).width,
            final(framebuffer).height == old(framebuffer).height,
            r == y_max - excess(y_max as int, bound as int),
            final(framebuffer).pixels@ == rows_closed_below(
                old(framebuffer).pixels@,
                self.span_start@,
                old(framebuffer).width as int,
                look,
                self.focal_height_ratios@,
                x,
                y_max as int,
                excess(y_max as int, bound as int),
            ),
    {
        let mut y: u16 = y_max;
        while bound < y
            invariant
                y <= y_max,
                bound < y_max ==> bound <= y,
                bound >= y_max ==> y == y_max,
                framebuffer.wf(),
                framebuffer.width == old(framebuffer).width,
                framebuffer.height == old(framebuffer).height,
                self.wf(framebuffer.height as int),
                look.texture.wf(),
                y_max <= framebuffer.height,
                x <= framebuffer.width,
                framebuffer.pixels@ == rows_closed_below(
                    old(framebuffer).pixels@,
                    self.span_start@,
                    old(framebuffer).width as int,
                    look,
                    self.focal_height_ratios@,
                    x,
                    y_max as int,
                    y_max - y,
                ),
            decreases y,
        {
            y = y - 1;
            let start: usize = self.span_start[y as usize] as usize;
            self.rasterise_plane_span(framebuffer, look, y as usize, start, x);
        }
        y
    }

    /// Draws a plane through the window `portal` in the rows from the
    /// first up to the second of `y_bounds`, column by column. The plane is
    /// drawn in horizontal spans, along which the depth does not change:
    /// a span is opened in a row where the plane begins to cover the row
    /// and drawn where it ceases to.
    pub fn draw_plane(
        &mut self,
        state: &mut RendererState,
        portal: &PortalNode,
        y_bounds: (&[u16], &[u16]),
        height_offset: Fixed,
        texture: &Texture,
        texture_offset: Vec2f,
        texture_scale_rotate: &Mat2f,
    )
        requires
            old(state).framebuffer.wf(),
            old(self).wf(old(state).framebuffer.height as int),
            texture.wf(),
            y_bounds.0@.len() == old(state).framebuffer.width,
            y_bounds.1@.len() == old(state).framebuffer.width,
            portal.x_min <= portal.x_max <= old(state).framebuffer.width,
            rows_on_screen(
                y_bounds.0@,
                y_bounds.1@,
                portal.x_min as int,
                portal.x_max as int,
                old(state).framebuffer.height as int,
            ),
        ensures
            final(state).framebuffer.wf(),
            final(state).same_view(old(state)),
            final(self).wf(old(state).framebuffer.height as int),
            final(self).focal_height_ratios == old(self).focal_height_ratios,
            ({
                let drawn = plane_drawn(
                    old(state).framebuffer.pixels@,
                    old(self).span_start@,
                    old(state).framebuffer.width as int,
                    &(PlaneLook {
                        lens: old(state).spec_lens(),
                        height_offset,
                        texture,
                        texture_offset,
                        texture_scale_rotate: *texture_scale_rotate,
                    }),
                    old(self).focal_height_ratios@,
                    y_bounds.0@,
                    y_bounds.1@,
                    portal.x_min,
                    portal.x_max,
                );
                &&& final(state).framebuffer.pixels@ == drawn.pixels
                &&& final(self).span_start@ == drawn.span_start
            }),
    {
        if portal.x_min >= portal.x_max {
            return ;
        }
        let look = PlaneLook {
            lens: state.lens(),
            height_offset,
            texture,
            texture_offset,
            texture_scale_rotate: *texture_scale_rotate,
        };
        let x_min: usize = portal.x_min;
        let x_max: usize = portal.x_max;
        let mut y_min: u16 = y_bounds.0[x_min];
        let mut y_max: u16 = y_min;
        let ghost width = state.framebuffer.width as int;
        let ghost start = self.sweep(&state.framebuffer, y_min, y_max);
        let ghost ratios = self.focal_height_ratios@;
        let mut x: usize = x_min;
        while x < x_max
            invariant
                x_min <= x <= x_max <= state.framebuffer.width,
                state.framebuffer.wf(),
                state.framebuffer.width == width,
                state.same_view(old(state)),
                self.wf(state.framebuffer.height as int),
                self.focal_height_ratios == old(self).focal_height_ratios,
                ratios == self.focal_height_ratios@,
                look.texture.wf(),
                y_bounds.0@.len() == width,
                y_bounds.1@.len() == width,
                rows_on_screen(
                    y_bounds.0@,
                    y_bounds.1@,
                    x_min as int,
                    x_max as int,
                    state.framebuffer.height as int,
                ),
                y_min <= state.framebuffer.height,
                y_max <= state.framebuffer.height,
                self.sweep(&state.framebuffer, y_min, y_max) == plane_swept(
                    start,
                    width,
                    &look,
                    ratios,
                    y_bounds.0@,
                    y_bounds.1@,
                    x_min as int,
                    x - x_min,
                ),
            decreases x_max - x,
        {
            let min_bound: u16 = y_bounds.0[x];
            let max_bound: u16 = y_bounds.1[x];
            assert(min_bound <= state.framebuffer.height && max_bound <= state.framebuffer.height);
            let ghost s0 = self.sweep(&state.framebuffer, y_min, y_max);
            // The plane has gained rows: open them.
            let y0 = self.open_above(y_min, min_bound, x as u16);
            let y1 = self.open_below(y_max, max_bound, x as u16);
            // The plane has lost rows: draw the spans that end here.
            let y2 = self.close_above(&mut state.framebuffer, &look, y0, min_bound, x);
            let y3 = self.close_below(&mut state.framebuffer, &look, y1, max_bound, x);
            proof {
                assert(self.sweep(&state.framebuffer, y2, y3) == plane_column(
                    s0,
                    width,
                    &look,
                    ratios,
                    x,
                    min_bound,
                    max_bound,
                ));
            }
            y_min = y2;
            y_max = y3;
            x = x + 1;
        }
        // Draw the spans that are still open where the window ends.
        let y_end = self.close_above(&mut state.framebuffer, &look, y_min, y_max, x_max);
    }
}

} // verus!
