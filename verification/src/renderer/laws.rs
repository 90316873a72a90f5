//! What holds of the renderer whatever the world and the view.

use vstd::prelude::*;
use crate::colour::BGRA8;
use crate::consts::far;
use crate::consts::mip_factor;
use crate::consts::near;
use crate::consts::MIP_LEVELS;
use crate::consts::NEAR_RAW;
use crate::fixed::lemma_to_index_monotone;
use crate::fixed::raw_div;
use crate::fixed::raw_mul;
use crate::fixed::saturate;
use crate::fixed::Fixed;
use crate::fixed::ONE_RAW;
use crate::maths::polygon::Polygon;
use crate::maths::vec::Vec2f;
use crate::maths::vec::COORD_LIMIT_RAW;
use crate::renderer::wall::spec_wall_tex;
use crate::player::Player;
use crate::renderer::framebuffer::MAX_SIDE;
use crate::renderer::portal::PortalNode;
use crate::renderer::renderer::frame_lens;
use crate::renderer::renderer::frame_stage;
use crate::renderer::renderer::update_post;
use crate::renderer::renderer::Renderer;
use crate::renderer::state::Lens;
use crate::renderer::util::spec_mip_level;
use crate::renderer::util::spec_normalise_depth;
use crate::renderer::wall::child_node;
use crate::renderer::wall::lemma_prepared_portal_columns;
use crate::renderer::wall::lemma_prepared_wall_columns;
use crate::renderer::wall::lemma_wall_columns_frame;
use crate::renderer::wall::spec_prepare_wall;
use crate::renderer::wall::wall_columns;
use crate::renderer::wall::window_ok;
use crate::renderer::wall::WallCanvas;
use crate::textures::grid_pixel;
use crate::renderer::wall::lemma_span_empty;
use crate::renderer::wall::portal_columns;
use crate::renderer::wall::spec_near_clip;
use crate::renderer::wall::spec_portal_rows;
use crate::renderer::wall::spec_prepare_portal_wall;
use crate::renderer::wall::PortalCanvas;
use crate::renderer::wall::PortalHeights;
use crate::renderer::wall::PortalLook;
use crate::renderer::wall::WallEnd;
use crate::renderer::wall::WallInterpolator;
use crate::surface::Sector;
use crate::surface::Sprite;
use crate::surface::Wall;
use crate::textures::Texture;

verus! {

/// A wall whose top lies no lower on the screen than its bottom notes wall
/// bounds in order: the first row of a column is no later than the row
/// after its last, and both lie inside the window.
pub proof fn lemma_wall_bounds_in_order(wall: WallInterpolator, lo: u16, hi: u16)
    requires
        lo <= hi,
        wall.top_y.raw <= wall.bottom_y.raw,
    ensures
        lo <= wall.spec_top_row(lo, hi) <= wall.spec_bottom_row(lo, hi) <= hi,
{
    lemma_to_index_monotone(wall.top_y, wall.bottom_y, MAX_SIDE);
}

/// The window behind a portal wall lies inside the window through which
/// the wall is seen: its columns are columns of that window.
pub proof fn lemma_child_columns_inside_parent(
    lens: &Lens,
    frustum: &Polygon,
    parent: PortalNode,
    heights: PortalHeights,
    wall: &Wall,
    sector: usize,
)
    requires
        parent.x_min <= parent.x_max,
        spec_prepare_portal_wall(lens, frustum, parent, heights, wall) is Some,
    ensures
        ({
            let job = spec_prepare_portal_wall(lens, frustum, parent, heights, wall).unwrap();
            let child = child_node(parent, sector, job);
            &&& parent.x_min <= child.x_min <= child.x_max <= parent.x_max
            &&& child.tree_depth == parent.tree_depth + 1 || parent.tree_depth == usize::MAX
        }),
{
    lemma_prepared_portal_columns(lens, frustum, parent, heights, wall);
}

/// Windows that lie inside windows which share no column share no column.
pub proof fn lemma_windows_behind_apart(
    left: PortalNode,
    right: PortalNode,
    behind_left: PortalNode,
    behind_right: PortalNode,
)
    requires
        left.x_max <= right.x_min,
        left.x_min <= behind_left.x_min <= behind_left.x_max <= left.x_max,
        right.x_min <= behind_right.x_min <= behind_right.x_max <= right.x_max,
    ensures
        behind_left.x_max <= behind_right.x_min,
{
}

proof fn lemma_saturate_monotone(a: int, b: int)
    requires
        a <= b,
    ensures
        saturate(a) <= saturate(b),
{
}

proof fn lemma_raw_div_monotone(a: int, b: int, d: int)
    requires
        a <= b,
        d > 0,
    ensures
        raw_div(a, d) <= raw_div(b, d),
{
    assert(a * (ONE_RAW as int) <= b * (ONE_RAW as int));
    vstd::arithmetic::div_mod::lemma_div_is_ordered(
        a * (ONE_RAW as int),
        b * (ONE_RAW as int),
        d,
    );
}

proof fn lemma_raw_mul_monotone(k: int, a: int, b: int)
    requires
        a <= b,
        k >= 0,
    ensures
        raw_mul(k, a) <= raw_mul(k, b),
{
    assert(k * a <= k * b) by (nonlinear_arith)
        requires
            a <= b,
            k >= 0,
    ;
    vstd::arithmetic::div_mod::lemma_div_is_ordered(k * a, k * b, ONE_RAW as int);
}

/// The mip level does not fall when the depth rises: with a bias that
/// leaves the mip factor no less than zero, a deeper point never has a
/// finer level than a nearer one.
pub proof fn lemma_mip_level_monotone(nearer: Fixed, deeper: Fixed, bias: Fixed)
    requires
        nearer.raw <= deeper.raw,
        mip_factor().spec_plus(bias).raw >= 0,
    ensures
        spec_mip_level(spec_normalise_depth(nearer), bias) <= spec_mip_level(
            spec_normalise_depth(deeper),
            bias,
        ) < MIP_LEVELS,
{
    let k = mip_factor().spec_plus(bias);
    let span = far().spec_minus(near());
    lemma_saturate_monotone(nearer.raw - near().raw, deeper.raw - near().raw);
    let a = nearer.spec_minus(near());
    let b = deeper.spec_minus(near());
    assert(span.raw > 0);
    lemma_raw_div_monotone(a.raw as int, b.raw as int, span.raw as int);
    let na = spec_normalise_depth(nearer);
    let nb = spec_normalise_depth(deeper);
    assert(na.raw <= nb.raw);
    lemma_raw_mul_monotone(k.raw as int, na.raw as int, nb.raw as int);
    lemma_to_index_monotone(k.spec_times(na), k.spec_times(nb), (MIP_LEVELS - 1) as usize);
}

/// A frame drawn again with the same player, world and sprites is the same
/// frame: the second of two updates in a row leaves every pixel as the
/// first left it.
pub proof fn lemma_update_repeatable(
    before: &Renderer,
    once: &Renderer,
    twice: &Renderer,
    player: &Player,
    textures: Seq<Texture>,
    sectors: Seq<Sector>,
    sprites: Seq<Sprite>,
)
    requires
        update_post(before, once, player, textures, sectors, sprites),
        update_post(once, twice, player, textures, sectors, sprites),
    ensures
        twice.state.framebuffer.pixels@ == once.state.framebuffer.pixels@,
        twice.state.framebuffer.width == once.state.framebuffer.width,
        twice.state.framebuffer.height == once.state.framebuffer.height,
{
    let first = frame_stage(&before.state, player.camera);
    let second = frame_stage(&once.state, player.camera);
    assert(frame_lens(&before.state, player.camera) == frame_lens(&once.state, player.camera));
    assert(first.ratios =~= second.ratios);
    assert(first == second);
}

/// The interpolator of a band whose top and bottom are the same row at
/// both ends has its top and bottom in the same row in every column.
pub proof fn lemma_flat_band_stays_flat(a: WallEnd, b: WallEnd, x_min: Fixed, n: int)
    requires
        a.top_y == a.bottom_y,
        b.top_y == b.bottom_y,
    ensures
        WallInterpolator::spec_new(a, b, x_min).stepped(n).top_y == WallInterpolator::spec_new(
            a,
            b,
            x_min,
        ).stepped(n).bottom_y,
        WallInterpolator::spec_new(a, b, x_min).stepped(n).top_y_m == WallInterpolator::spec_new(
            a,
            b,
            x_min,
        ).stepped(n).bottom_y_m,
    decreases n,
{
    if n > 0 {
        lemma_flat_band_stays_flat(a, b, x_min, n - 1);
    }
}

/// A band of no height draws no pixel, whatever the window: the pixels
/// after any number of columns of a portal wall whose two bands have their
/// top and bottom in the same row at both ends are the pixels before, and
/// in every column drawn the window behind the wall starts where the wall
/// starts and ends where it ends.
pub proof fn lemma_flat_bands_draw_nothing(
    canvas: PortalCanvas,
    width: int,
    look: PortalLook,
    lo: Seq<u16>,
    hi: Seq<u16>,
    upper_a: WallEnd,
    upper_b: WallEnd,
    lower_a: WallEnd,
    lower_b: WallEnd,
    start: Fixed,
    x_min: int,
    n: int,
)
    requires
        upper_a.top_y == upper_a.bottom_y,
        upper_b.top_y == upper_b.bottom_y,
        lower_a.top_y == lower_a.bottom_y,
        lower_b.top_y == lower_b.bottom_y,
        0 <= x_min,
        0 <= n,
        x_min + n <= canvas.wall_min.len(),
        canvas.wall_min.len() == canvas.wall_max.len(),
        canvas.wall_min.len() == canvas.child_lo.len(),
        canvas.wall_min.len() == canvas.child_hi.len(),
    ensures
        ({
            let after = portal_columns(
                canvas,
                width,
                look,
                lo,
                hi,
                WallInterpolator::spec_new(upper_a, upper_b, start),
                WallInterpolator::spec_new(lower_a, lower_b, start),
                x_min,
                n,
            );
            &&& after.pixels == canvas.pixels
            &&& after.wall_min.len() == canvas.wall_min.len()
            &&& after.wall_max.len() == canvas.wall_min.len()
            &&& after.child_lo.len() == canvas.wall_min.len()
            &&& after.child_hi.len() == canvas.wall_min.len()
            &&& forall|x: int|
                x_min <= x < x_min + n ==> #[trigger] after.child_lo[x] == after.wall_min[x]
            &&& forall|x: int|
                x_min <= x < x_min + n ==> #[trigger] after.child_hi[x] == after.wall_max[x]
        }),
    decreases n,
{
    if n > 0 {
        let upper = WallInterpolator::spec_new(upper_a, upper_b, start);
        let lower = WallInterpolator::spec_new(lower_a, lower_b, start);
        lemma_flat_bands_draw_nothing(
            canvas,
            width,
            look,
            lo,
            hi,
            upper_a,
            upper_b,
            lower_a,
            lower_b,
            start,
            x_min,
            n - 1,
        );
        lemma_flat_band_stays_flat(upper_a, upper_b, start, n - 1);
        lemma_flat_band_stays_flat(lower_a, lower_b, start, n - 1);
        let prev = portal_columns(canvas, width, look, lo, hi, upper, lower, x_min, n - 1);
        let x = x_min + n - 1;
        let u = upper.stepped(n - 1);
        let l = lower.stepped(n - 1);
        let rows = spec_portal_rows(&u, &l, lo[x], hi[x]);
        assert(rows.upper_y_max == rows.upper_y_min);
        assert(rows.lower_y_max == rows.lower_y_min);
        lemma_span_empty(
            prev.pixels,
            width,
            look.upper_texture,
            u.spec_shade(look.upper_texture, look.lighting),
            x,
            rows.upper_y_min as int,
            u.spec_init_y(rows.upper_y_min),
            0,
        );
        lemma_span_empty(
            prev.pixels,
            width,
            look.lower_texture,
            l.spec_shade(look.lower_texture, look.lighting),
            x,
            rows.lower_y_min as int,
            l.spec_init_y(rows.lower_y_min),
            0,
        );
    }
}

/// A portal into a sector whose ceiling and floor are as high as those of
/// the sector it is seen from has no bands: drawing any number of its
/// columns leaves every pixel as it was, and in every column drawn the
/// window behind the wall starts where the wall starts and ends where it
/// ends.
pub proof fn lemma_level_portal_draws_nothing(
    canvas: PortalCanvas,
    width: int,
    look: PortalLook,
    lo: Seq<u16>,
    hi: Seq<u16>,
    lens: &Lens,
    frustum: &Polygon,
    window: PortalNode,
    heights: PortalHeights,
    wall: &Wall,
    n: int,
)
    requires
        heights.next_ceiling == heights.ceiling,
        heights.next_floor == heights.floor,
        spec_prepare_portal_wall(lens, frustum, window, heights, wall) is Some,
        0 <= n,
        spec_prepare_portal_wall(lens, frustum, window, heights, wall).unwrap().x_min + n
            <= canvas.wall_min.len(),
        canvas.wall_min.len() == canvas.wall_max.len(),
        canvas.wall_min.len() == canvas.child_lo.len(),
        canvas.wall_min.len() == canvas.child_hi.len(),
    ensures
        ({
            let job = spec_prepare_portal_wall(lens, frustum, window, heights, wall).unwrap();
            let after = portal_columns(
                canvas,
                width,
                look,
                lo,
                hi,
                job.upper,
                job.lower,
                job.x_min as int,
                n,
            );
            &&& after.pixels == canvas.pixels
            &&& forall|x: int|
                job.x_min <= x < job.x_min + n ==> #[trigger] after.child_lo[x] == after.wall_min[x]
            &&& forall|x: int|
                job.x_min <= x < job.x_min + n ==> #[trigger] after.child_hi[x] == after.wall_max[x]
        }),
{
    let vs_a = lens.spec_transform_view(wall.segment.a);
    let vs_b = lens.spec_transform_view(wall.segment.b);
    let clip = spec_near_clip(vs_a, vs_b);
    let top_a = lens.spec_project_screen_space(clip.a, heights.ceiling);
    let top_b = lens.spec_project_screen_space(clip.b, heights.ceiling);
    let bottom_a = lens.spec_project_screen_space(clip.a, heights.floor);
    let bottom_b = lens.spec_project_screen_space(clip.b, heights.floor);
    let job = spec_prepare_portal_wall(lens, frustum, window, heights, wall).unwrap();
    let start = Fixed::spec_from_index(job.x_min);
    let upper_whole = spec_wall_tex(
        wall.texture_data,
        Vec2f::spec_zero(),
        Vec2f { x: wall.width, y: heights.ceiling.spec_minus(heights.next_ceiling) },
    );
    let lower_whole = spec_wall_tex(
        wall.texture_data,
        Vec2f { x: Fixed::spec_zero(), y: heights.ceiling.spec_minus(heights.next_floor) },
        Vec2f { x: wall.width, y: heights.ceiling.spec_minus(heights.floor) },
    );
    let upper_tex = clip.spec_clip_tex(upper_whole.0, upper_whole.1);
    let lower_tex = clip.spec_clip_tex(lower_whole.0, lower_whole.1);
    let upper_a = WallEnd {
        x: top_a.0.x,
        top_y: top_a.0.y,
        bottom_y: top_a.0.y,
        tex: upper_tex.0,
        inv_depth: top_a.1,
    };
    let upper_b = WallEnd {
        x: top_b.0.x,
        top_y: top_b.0.y,
        bottom_y: top_b.0.y,
        tex: upper_tex.1,
        inv_depth: top_b.1,
    };
    let lower_a = WallEnd {
        x: top_a.0.x,
        top_y: bottom_a.0.y,
        bottom_y: bottom_a.0.y,
        tex: lower_tex.0,
        inv_depth: top_a.1,
    };
    let lower_b = WallEnd {
        x: top_b.0.x,
        top_y: bottom_b.0.y,
        bottom_y: bottom_b.0.y,
        tex: lower_tex.1,
        inv_depth: top_b.1,
    };
    assert(job.upper == WallInterpolator::spec_new(upper_a, upper_b, start));
    assert(job.lower == WallInterpolator::spec_new(lower_a, lower_b, start));
    lemma_flat_bands_draw_nothing(
        canvas,
        width,
        look,
        lo,
        hi,
        upper_a,
        upper_b,
        lower_a,
        lower_b,
        start,
        job.x_min as int,
        n,
    );
}

/// Raw value by which rounding can part the screen offsets of two points
/// that lie on one line through the eye: one more than the unit over the
/// depth of the near plane.
pub const RAY_SLACK_RAW: i64 = 99865;

/// The greatest raw focal width whose product with a distance inside the
/// coordinate limit does not saturate: just under 32768 pixels.
pub const FOCAL_LIMIT_RAW: i64 = 0x7F_FFFF_FFFF;

/// Both points lie at or behind the near plane, and they lie on one line
/// through the eye. The edges of the view are such lines.
pub open spec fn on_ray(a: Vec2f, b: Vec2f) -> bool {
    &&& a.y.raw >= NEAR_RAW
    &&& b.y.raw >= NEAR_RAW
    &&& a.x.raw * b.y.raw == b.x.raw * a.y.raw
}

/// Where `qa` and `qb` are the quotients, rounded down twice, of the
/// offsets of two points on one line through the eye, `qa` is greater
/// than `qb` by no more than [`RAY_SLACK_RAW`].
proof fn lemma_ray_gap(xa: int, ya: int, qa: int, xb: int, yb: int, qb: int, f: int)
    requires
        ya > 0,
        yb >= NEAR_RAW,
        xa * yb == xb * ya,
        ya * qa <= xa * f,
        yb * qb + yb + ONE_RAW > xb * f,
    ensures
        qa - qb <= RAY_SLACK_RAW,
{
    let d = qa - qb;
    assert(yb * (ya * qa) <= yb * (xa * f)) by (nonlinear_arith)
        requires
            ya * qa <= xa * f,
            yb >= 0,
    ;
    assert(ya * (yb * qb + yb + ONE_RAW) >= ya * (xb * f + 1)) by (nonlinear_arith)
        requires
            yb * qb + yb + ONE_RAW >= xb * f + 1,
            ya >= 0,
    ;
    assert(yb * (xa * f) == ya * (xb * f)) by (nonlinear_arith)
        requires
            xa * yb == xb * ya,
    ;
    assert(yb * (ya * qa) == ya * (yb * qa)) by (nonlinear_arith);
    assert(ya * (yb * qb + yb + ONE_RAW) == ya * (yb * qb) + ya * (yb + ONE_RAW))
        by (nonlinear_arith);
    assert(ya * (xb * f + 1) == ya * (xb * f) + ya) by (nonlinear_arith);
    assert(ya * (yb * qa) - ya * (yb * qb) == ya * (yb * d)) by (nonlinear_arith)
        requires
            d == qa - qb,
    ;
    assert(ya * (yb + ONE_RAW - 1) == ya * (yb + ONE_RAW) - ya) by (nonlinear_arith);
    assert(ya * (yb * d) <= ya * (yb + ONE_RAW - 1)) by (nonlinear_arith)
        requires
            ya * (yb * qa) <= ya * (xb * f),
            ya * (yb * qb) + ya * (yb + ONE_RAW) >= ya * (xb * f) + ya,
            ya * (yb * qa) - ya * (yb * qb) == ya * (yb * d),
            ya * (yb + ONE_RAW - 1) == ya * (yb + ONE_RAW) - ya,
    ;
    assert(yb * d <= yb + ONE_RAW - 1) by (nonlinear_arith)
        requires
            ya * (yb * d) <= ya * (yb + ONE_RAW - 1),
            ya > 0,
    ;
    assert(d <= 99865) by (nonlinear_arith)
        requires
            yb * d <= yb + 0x100_0000 - 1,
            yb >= 168,
    ;
}

/// What rounding leaves of the offset of a point: the distance across
/// `x` times the focal width `f`, scaled back and rounded down, then
/// brought over the depth `y` and rounded down again.
proof fn lemma_offset_rounded(x: int, y: int, f: int) -> (q: int)
    requires
        -COORD_LIMIT_RAW <= x <= COORD_LIMIT_RAW,
        0 < y,
        0 <= f <= FOCAL_LIMIT_RAW,
    ensures
        raw_div(raw_mul(x, f), y) == saturate(q),
        y * q <= x * f,
        y * q + y + ONE_RAW > x * f,
{
    let p = x * f;
    assert(-0x1_0000_0000_0000 * 0x7F_FFFF_FFFF <= p <= 0x1_0000_0000_0000 * 0x7F_FFFF_FFFF)
        by (nonlinear_arith)
        requires
            p == x * f,
            -0x1_0000_0000_0000 <= x <= 0x1_0000_0000_0000,
            0 <= f <= 0x7F_FFFF_FFFF,
    ;
    let m = p / (ONE_RAW as int);
    assert(saturate(m) == m);
    assert(raw_mul(x, f) == m);
    let t = m * (ONE_RAW as int);
    assert(t <= p < t + ONE_RAW);
    let q = t / y;
    vstd::arithmetic::div_mod::lemma_fundamental_div_mod(t, y);
    vstd::arithmetic::div_mod::lemma_mod_bound(t, y);
    assert(t == y * q + t % y);
    q
}

/// The screen offsets of two points that lie on one line through the eye
/// differ by no more than [`RAY_SLACK_RAW`].
pub proof fn lemma_ray_offsets(xa: int, ya: int, xb: int, yb: int, f: int)
    requires
        -COORD_LIMIT_RAW <= xa <= COORD_LIMIT_RAW,
        -COORD_LIMIT_RAW <= xb <= COORD_LIMIT_RAW,
        NEAR_RAW <= ya,
        NEAR_RAW <= yb,
        0 <= f <= FOCAL_LIMIT_RAW,
        xa * yb == xb * ya,
    ensures
        raw_div(raw_mul(xa, f), ya) - raw_div(raw_mul(xb, f), yb) <= RAY_SLACK_RAW,
        raw_div(raw_mul(xb, f), yb) - raw_div(raw_mul(xa, f), ya) <= RAY_SLACK_RAW,
{
    let qa = lemma_offset_rounded(xa, ya, f);
    let qb = lemma_offset_rounded(xb, yb, f);
    lemma_ray_gap(xa, ya, qa, xb, yb, qb, f);
    lemma_ray_gap(xb, yb, qb, xa, ya, qa, f);
}

/// Two values less than one apart have whole parts that differ by at most
/// one.
pub proof fn lemma_index_step(a: Fixed, b: Fixed, limit: usize)
    requires
        a.raw <= b.raw < a.raw + ONE_RAW,
    ensures
        a.spec_to_index(limit) <= b.spec_to_index(limit) <= a.spec_to_index(limit) + 1,
{
}

/// A solid wall that lies on a line through the eye, as a wall on the
/// edge of the view does, covers at most one column, if the focal width
/// is no more than [`FOCAL_LIMIT_RAW`].
pub proof fn lemma_ray_wall_one_column(
    lens: &Lens,
    frustum: &Polygon,
    window: PortalNode,
    ceiling: Fixed,
    floor: Fixed,
    wall: &Wall,
)
    requires
        window.x_min <= window.x_max,
        0 <= lens.focal_width.raw <= FOCAL_LIMIT_RAW,
        on_ray(
            lens.spec_transform_view(wall.segment.a),
            lens.spec_transform_view(wall.segment.b),
        ),
    ensures
        spec_prepare_wall(lens, frustum, window, ceiling, floor, wall) is Some ==> {
            let job = spec_prepare_wall(lens, frustum, window, ceiling, floor, wall).unwrap();
            window.x_min <= job.x_min <= job.x_max <= window.x_max && job.x_max <= job.x_min + 1
        },
{
    if spec_prepare_wall(lens, frustum, window, ceiling, floor, wall) is Some {
        lemma_prepared_wall_columns(lens, frustum, window, ceiling, floor, wall);
        let vs_a = lens.spec_transform_view(wall.segment.a);
        let vs_b = lens.spec_transform_view(wall.segment.b);
        assert(vs_a.bounded() && vs_b.bounded());
        let clip = spec_near_clip(vs_a, vs_b);
        assert(clip.a == vs_a && clip.b == vs_b);
        let f = lens.focal_width.raw as int;
        lemma_ray_offsets(
            vs_a.x.raw as int,
            vs_a.y.raw as int,
            vs_b.x.raw as int,
            vs_b.y.raw as int,
            f,
        );
        let left = lens.spec_project_screen_space(clip.a, ceiling).0.x;
        let right = lens.spec_project_screen_space(clip.b, ceiling).0.x;
        let off_a = raw_div(raw_mul(vs_a.x.raw as int, f), vs_a.y.raw as int);
        let off_b = raw_div(raw_mul(vs_b.x.raw as int, f), vs_b.y.raw as int);
        assert(left.raw == saturate(off_a + lens.half_width.raw));
        assert(right.raw == saturate(off_b + lens.half_width.raw));
        assert(left.raw < right.raw);
        assert(right.raw < left.raw + ONE_RAW);
        lemma_index_step(left, right, MAX_SIDE);
    }
}

/// A solid wall that lies on a line through the eye, as a wall on the
/// edge of the view does, changes the pixels of at most one column, the
/// first of its columns, if the focal width is no more than
/// [`FOCAL_LIMIT_RAW`].
pub proof fn lemma_ray_wall_pixels(
    canvas: WallCanvas,
    width: int,
    height: int,
    texture: &Texture,
    lo: Seq<u16>,
    hi: Seq<u16>,
    lens: &Lens,
    frustum: &Polygon,
    window: PortalNode,
    ceiling: Fixed,
    floor: Fixed,
    wall: &Wall,
)
    requires
        window.x_min <= window.x_max <= width,
        canvas.pixels.len() == width * height,
        canvas.wall_min.len() == width,
        canvas.wall_max.len() == width,
        lo.len() == width,
        hi.len() == width,
        window_ok(lo, hi, window.x_min as int, window.x_max as int, height),
        0 <= lens.focal_width.raw <= FOCAL_LIMIT_RAW,
        on_ray(
            lens.spec_transform_view(wall.segment.a),
            lens.spec_transform_view(wall.segment.b),
        ),
    ensures
        spec_prepare_wall(lens, frustum, window, ceiling, floor, wall) is Some ==> {
            let job = spec_prepare_wall(lens, frustum, window, ceiling, floor, wall).unwrap();
            let after = wall_columns(
                canvas,
                width,
                texture,
                job.lighting,
                lo,
                hi,
                job.interpolator,
                job.x_min as int,
                job.x_max - job.x_min,
            );
            forall|i: int, j: int|
                0 <= i < width && 0 <= j < height && i != job.x_min ==> #[trigger] grid_pixel(
                    after.pixels,
                    width,
                    i,
                    j,
                ) == grid_pixel(canvas.pixels, width, i, j)
        },
{
    if spec_prepare_wall(lens, frustum, window, ceiling, floor, wall) is Some {
        let job = spec_prepare_wall(lens, frustum, window, ceiling, floor, wall).unwrap();
        lemma_ray_wall_one_column(lens, frustum, window, ceiling, floor, wall);
        assert(window_ok(lo, hi, job.x_min as int, job.x_max as int, height));
        lemma_wall_columns_frame(
            canvas,
            width,
            height,
            texture,
            job.lighting,
            lo,
            hi,
            job.interpolator,
            job.x_min as int,
            job.x_max - job.x_min,
        );
    }
}

} // verus!
