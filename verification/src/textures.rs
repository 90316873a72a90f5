//! Textures with their chain of reduced copies.

use vstd::prelude::*;
use crate::bitmap::Bitmap;
use crate::colour::BGRA8;
use crate::consts::MIP_LEVELS;

verus! {

/// Where one level of a texture lies in the pixel array.
#[derive(Clone, Copy, Debug, PartialEq, Eq, Structural)]
pub struct MipLevel {
    pub width: usize,
    pub height: usize,
    pub offset: usize,
}

/// Channel `ch` of a colour: 0 blue, 1 green, 2 red, otherwise alpha.
pub open spec fn channel(c: BGRA8, ch: int) -> int {
    if ch == 0 {
        c.b as int
    } else if ch == 1 {
        c.g as int
    } else if ch == 2 {
        c.r as int
    } else {
        c.a as int
    }
}

/// How many of the first `n` samples are not fully transparent.
pub open spec fn visible_count(samples: Seq<BGRA8>, n: int) -> int
    decreases n,
{
    if n <= 0 {
        0
    } else {
        visible_count(samples, n - 1) + if samples[n - 1].a == 0 {
            0int
        } else {
            1int
        }
    }
}

/// Sum of channel `ch` over those of the first `n` samples that are not fully
/// transparent.
pub open spec fn visible_sum(samples: Seq<BGRA8>, n: int, ch: int) -> int
    decreases n,
{
    if n <= 0 {
        0
    } else {
        visible_sum(samples, n - 1, ch) + if samples[n - 1].a == 0 {
            0int
        } else {
            channel(samples[n - 1], ch)
        }
    }
}

/// Mean of the samples that are not fully transparent, channel by channel,
/// or `fallback` if every sample is fully transparent.
pub open spec fn visible_mean(samples: Seq<BGRA8>, fallback: BGRA8) -> BGRA8 {
    let n = samples.len() as int;
    let count = visible_count(samples, n);
    if count == 0 {
        fallback
    } else {
        BGRA8 {
            b: (visible_sum(samples, n, 0) / count) as u8,
            g: (visible_sum(samples, n, 1) / count) as u8,
            r: (visible_sum(samples, n, 2) / count) as u8,
            a: (visible_sum(samples, n, 3) / count) as u8,
        }
    }
}

/// The pixel of a `w` by `h` image at `(x, y)`, where coordinates outside the
/// image wrap around.
pub open spec fn wrapped_pixel(src: Seq<BGRA8>, w: int, h: int, x: int, y: int) -> BGRA8 {
    src[(y % h) * w + (x % w)]
}

/// The pixel of a `w` by `h` image at `(x, y)`, where coordinates outside the
/// image are moved to the nearest edge.
pub open spec fn clamped_pixel(src: Seq<BGRA8>, w: int, h: int, x: int, y: int) -> BGRA8 {
    let cx = if x < 0 {
        0
    } else if x > w - 1 {
        w - 1
    } else {
        x
    };
    let cy = if y < 0 {
        0
    } else if y > h - 1 {
        h - 1
    } else {
        y
    };
    src[cy * w + cx]
}

/// The pixel at `(x, y)` of an image stored row by row, `w` pixels a row.
pub open spec fn grid_pixel(pixels: Seq<BGRA8>, w: int, x: int, y: int) -> BGRA8 {
    pixels[y * w + x]
}

/// The three-by-three neighbourhood of `(cx, cy)`, row by row, with wrapping.
pub open spec fn neighbourhood(src: Seq<BGRA8>, w: int, h: int, cx: int, cy: int) -> Seq<BGRA8> {
    seq![
        wrapped_pixel(src, w, h, cx - 1, cy - 1),
        wrapped_pixel(src, w, h, cx, cy - 1),
        wrapped_pixel(src, w, h, cx + 1, cy - 1),
        wrapped_pixel(src, w, h, cx - 1, cy),
        wrapped_pixel(src, w, h, cx, cy),
        wrapped_pixel(src, w, h, cx + 1, cy),
        wrapped_pixel(src, w, h, cx - 1, cy + 1),
        wrapped_pixel(src, w, h, cx, cy + 1),
        wrapped_pixel(src, w, h, cx + 1, cy + 1),
    ]
}

/// The pixel that the box filter gives at `(x, y)` of the half-size image.
pub open spec fn box_filtered(src: Seq<BGRA8>, w: int, h: int, x: int, y: int, before: BGRA8)
    -> BGRA8 {
    visible_mean(neighbourhood(src, w, h, 2 * x, 2 * y), before)
}

proof fn lemma_visible_bounds(samples: Seq<BGRA8>, n: int, ch: int)
    requires
        0 <= n,
    ensures
        0 <= visible_count(samples, n) <= n,
        0 <= visible_sum(samples, n, ch) <= 255 * visible_count(samples, n),
    decreases n,
{
    if n > 0 {
        lemma_visible_bounds(samples, n - 1, ch);
    }
}

fn channel_of(c: BGRA8, ch: usize) -> (r: u32)
    ensures
        r == channel(c, ch as int),
{
    if ch == 0 {
        c.b as u32
    } else if ch == 1 {
        c.g as u32
    } else if ch == 2 {
        c.r as u32
    } else {
        c.a as u32
    }
}

/// Averages the visible samples channel by channel.
fn mean_of_visible(samples: &[BGRA8; 9], fallback: BGRA8) -> (c: BGRA8)
    ensures
        c == visible_mean(samples@, fallback),
{
    let mut sums: [u32; 4] = [0, 0, 0, 0];
    let mut count: u32 = 0;
    let mut i: usize = 0;
    while i < 9
        invariant
            0 <= i <= 9,
            count == visible_count(samples@, i as int),
            forall|ch: int| 0 <= ch < 4 ==> sums@[ch] == visible_sum(samples@, i as int, ch),
        decreases 9 - i,
    {
        let sample = samples[i];
        proof {
            lemma_visible_bounds(samples@, i as int, 0);
            lemma_visible_bounds(samples@, i as int, 1);
            lemma_visible_bounds(samples@, i as int, 2);
            lemma_visible_bounds(samples@, i as int, 3);
        }
        if sample.a != 0 {
            sums[0] = sums[0] + channel_of(sample, 0);
            sums[1] = sums[1] + channel_of(sample, 1);
            sums[2] = sums[2] + channel_of(sample, 2);
            sums[3] = sums[3] + channel_of(sample, 3);
            count = count + 1;
        }
        i = i + 1;
    }
    if count == 0 {
        fallback
    } else {
        proof {
            lemma_visible_bounds(samples@, 9, 0);
            lemma_visible_bounds(samples@, 9, 1);
            lemma_visible_bounds(samples@, 9, 2);
            lemma_visible_bounds(samples@, 9, 3);
            lemma_mean_fits(sums@[0] as int, count as int);
            lemma_mean_fits(sums@[1] as int, count as int);
            lemma_mean_fits(sums@[2] as int, count as int);
            lemma_mean_fits(sums@[3] as int, count as int);
        }
        BGRA8 {
            b: (sums[0] / count) as u8,
            g: (sums[1] / count) as u8,
            r: (sums[2] / count) as u8,
            a: (sums[3] / count) as u8,
        }
    }
}

proof fn lemma_mean_fits(sum: int, count: int)
    requires
        count > 0,
        0 <= sum <= 255 * count,
    ensures
        0 <= sum / count <= 255,
{
    assert(0 <= sum / count <= 255) by (nonlinear_arith)
        requires
            count > 0,
            0 <= sum <= 255 * count,
    ;
}

proof fn lemma_wrapped_cell(x: int, y: int, w: int, h: int)
    requires
        w > 0,
        h > 0,
    ensures
        0 <= x % w < w,
        0 <= y % h < h,
        0 <= (y % h) * w + (x % w) < w * h,
{
    crate::bitmap::lemma_cell_index(x % w, y % h, w, h);
}

/// Reads the pixel at `(x, y)`, moving coordinates outside the image to the
/// nearest edge.
pub fn sample_clamp(src: &[BGRA8], src_width: usize, src_height: usize, x: isize, y: isize) -> (c:
    BGRA8)
    requires
        0 < src_width <= isize::MAX,
        0 < src_height <= isize::MAX,
        src@.len() >= src_width * src_height,
    ensures
        c == clamped_pixel(src@, src_width as int, src_height as int, x as int, y as int),
{
    let cx: usize = if x < 0 {
        0
    } else if x as usize > src_width - 1 {
        src_width - 1
    } else {
        x as usize
    };
    let cy: usize = if y < 0 {
        0
    } else if y as usize > src_height - 1 {
        src_height - 1
    } else {
        y as usize
    };
    let len: usize = src.len();
    proof {
        crate::bitmap::lemma_cell_index(cx as int, cy as int, src_width as int, src_height as int);
    }
    src[cy * src_width + cx]
}

/// Reads the pixel at `(x, y)`, wrapping coordinates outside the image.
pub fn sample_wrap(src: &[BGRA8], src_width: usize, src_height: usize, x: isize, y: isize) -> (c:
    BGRA8)
    requires
        0 < src_width <= isize::MAX,
        0 < src_height <= isize::MAX,
        src@.len() >= src_width * src_height,
    ensures
        c == wrapped_pixel(src@, src_width as int, src_height as int, x as int, y as int),
{
    proof {
        lemma_wrapped_cell(x as int, y as int, src_width as int, src_height as int);
    }
    let wx: usize = match x.checked_rem_euclid(src_width as isize) {
        Some(r) => r as usize,
        None => 0,
    };
    let wy: usize = match y.checked_rem_euclid(src_height as isize) {
        Some(r) => r as usize,
        None => 0,
    };
    let len: usize = src.len();
    src[wy * src_width + wx]
}

/// Fills the first `(src_width / 2) * (src_height / 2)` pixels of `dst` with
/// the image in `src` reduced to half its width and height. Each pixel
/// becomes the mean of the three-by-three block around the matching source
/// pixel, over those samples that are not fully transparent; where all nine
/// are, the pixel keeps its value.
pub fn downscale_3x3_box_filter(
    src: &[BGRA8],
    src_width: usize,
    src_height: usize,
    dst: &mut [BGRA8],
)
    requires
        0 < src_width < isize::MAX,
        0 < src_height < isize::MAX,
        src@.len() >= src_width * src_height,
        old(dst)@.len() >= (src_width / 2) * (src_height / 2),
    ensures
        final(dst)@.len() == old(dst)@.len(),
        forall|x: int, y: int|
            0 <= x < src_width / 2 && 0 <= y < src_height / 2 ==> #[trigger] grid_pixel(
                final(dst)@,
                src_width as int / 2,
                x,
                y,
            ) == box_filtered(
                src@,
                src_width as int,
                src_height as int,
                x,
                y,
                grid_pixel(old(dst)@, src_width as int / 2, x, y),
            ),
        forall|i: int|
            (src_width / 2) * (src_height / 2) <= i < old(dst)@.len()
                ==> final(dst)@[i] == old(dst)@[i],
{
    let dst_width: usize = src_width / 2;
    let dst_height: usize = src_height / 2;
    let ghost before = dst@;
    let len: usize = dst.len();
    let mut dst_y: usize = 0;
    while dst_y < dst_height
        invariant
            0 < src_width < isize::MAX,
            0 < src_height < isize::MAX,
            src@.len() >= src_width * src_height,
            dst_width == src_width / 2,
            dst_height == src_height / 2,
            dst@.len() == before.len(),
            before.len() >= dst_width * dst_height,
            before.len() == len,
            0 <= dst_y <= dst_height,
            forall|x: int, y: int|
                0 <= x < dst_width && 0 <= y < dst_y ==> #[trigger] grid_pixel(
                    dst@,
                    dst_width as int,
                    x,
                    y,
                ) == box_filtered(
                    src@,
                    src_width as int,
                    src_height as int,
                    x,
                    y,
                    grid_pixel(before, dst_width as int, x, y),
                ),
            forall|i: int| dst_y * dst_width <= i < before.len() ==> dst@[i] == before[i],
        decreases dst_height - dst_y,
    {
        let mut dst_x: usize = 0;
        proof {
            lemma_row_start(dst_y as int, dst_width as int, dst_height as int);
        }
        while dst_x < dst_width
            invariant
                0 < src_width < isize::MAX,
                0 < src_height < isize::MAX,
                src@.len() >= src_width * src_height,
                dst_width == src_width / 2,
                dst_height == src_height / 2,
                dst@.len() == before.len(),
                before.len() >= dst_width * dst_height,
                before.len() == len,
                0 <= dst_y < dst_height,
                0 <= dst_x <= dst_width,
                0 <= dst_y * dst_width,
                dst_y * dst_width + dst_width <= dst_width * dst_height,
                forall|x: int, y: int|
                    0 <= x < dst_width && 0 <= y < dst_y ==> #[trigger] grid_pixel(
                        dst@,
                        dst_width as int,
                        x,
                        y,
                    ) == box_filtered(
                        src@,
                        src_width as int,
                        src_height as int,
                        x,
                        y,
                        grid_pixel(before, dst_width as int, x, y),
                    ),
                forall|x: int|
                    0 <= x < dst_x ==> #[trigger] grid_pixel(
                        dst@,
                        dst_width as int,
                        x,
                        dst_y as int,
                    ) == box_filtered(
                        src@,
                        src_width as int,
                        src_height as int,
                        x,
                        dst_y as int,
                        grid_pixel(before, dst_width as int, x, dst_y as int),
                    ),
                forall|i: int|
                    dst_y * dst_width + dst_x <= i < before.len() ==> dst@[i] == before[i],
            decreases dst_width - dst_x,
        {
            let src_x: isize = (dst_x * 2) as isize;
            let src_y: isize = (dst_y * 2) as isize;
            let samples: [BGRA8; 9] = [
                sample_wrap(src, src_width, src_height, src_x - 1, src_y - 1),
                sample_wrap(src, src_width, src_height, src_x, src_y - 1),
                sample_wrap(src, src_width, src_height, src_x + 1, src_y - 1),
                sample_wrap(src, src_width, src_height, src_x - 1, src_y),
                sample_wrap(src, src_width, src_height, src_x, src_y),
                sample_wrap(src, src_width, src_height, src_x + 1, src_y),
                sample_wrap(src, src_width, src_height, src_x - 1, src_y + 1),
                sample_wrap(src, src_width, src_height, src_x, src_y + 1),
                sample_wrap(src, src_width, src_height, src_x + 1, src_y + 1),
            ];
            assert(samples@ =~= neighbourhood(
                src@,
                src_width as int,
                src_height as int,
                2 * dst_x,
                2 * dst_y,
            ));
            let index: usize = dst_y * dst_width + dst_x;
            let ghost mid = dst@;
            let mean = mean_of_visible(&samples, dst[index]);
            dst[index] = mean;
            proof {
                assert forall|x: int, y: int| 0 <= x < dst_width && 0 <= y < dst_y implies #[trigger] grid_pixel(
                    dst@,
                    dst_width as int,
                    x,
                    y,
                ) == grid_pixel(mid, dst_width as int, x, y) by {
                    lemma_rows_apart(x, y, dst_x as int, dst_y as int, dst_width as int);
                }
                assert forall|x: int| 0 <= x < dst_x implies #[trigger] grid_pixel(
                    dst@,
                    dst_width as int,
                    x,
                    dst_y as int,
                ) == grid_pixel(mid, dst_width as int, x, dst_y as int) by {}
                assert(grid_pixel(dst@, dst_width as int, dst_x as int, dst_y as int) == mean);
                assert(grid_pixel(before, dst_width as int, dst_x as int, dst_y as int)
                    == mid[index as int]);
            }
            dst_x = dst_x + 1;
        }
        proof {
            assert((dst_y + 1) * dst_width == dst_y * dst_width + dst_width) by (nonlinear_arith);
        }
        dst_y = dst_y + 1;
    }
    proof {
        assert(dst_height * dst_width == dst_width * dst_height) by (nonlinear_arith);
    }
}

proof fn lemma_row_start(y: int, w: int, h: int)
    requires
        0 <= y < h,
        0 <= w,
    ensures
        0 <= y * w,
        y * w + w <= w * h,
{
    assert(0 <= y * w) by (nonlinear_arith)
        requires
            0 <= y,
            0 <= w,
    ;
    assert(y * w + w <= w * h) by (nonlinear_arith)
        requires
            y + 1 <= h,
            0 <= w,
    ;
}

proof fn lemma_rows_apart(x1: int, y1: int, x2: int, y2: int, w: int)
    requires
        0 <= x1 < w,
        0 <= x2 < w,
        0 <= y1 < y2,
    ensures
        y1 * w + x1 < y2 * w + x2,
{
    assert(y1 * w + w <= y2 * w) by (nonlinear_arith)
        requires
            y1 + 1 <= y2,
            0 <= w,
    ;
}

/// Each level has half the width and height of the one before and starts
/// where the one before ends or later; the last level of at least one pixel
/// ends inside `len` pixels.
pub open spec fn chained(levels: Seq<MipLevel>, len: int) -> bool {
    &&& levels.len() > 0
    &&& forall|i: int|
        0 <= i < levels.len() ==> 0 < (#[trigger] levels[i]).width < isize::MAX && 0
            < levels[i].height < isize::MAX
    &&& forall|i: int|
        0 <= i < levels.len() - 1 ==> {
            &&& (#[trigger] levels[i]).offset + levels[i].width * levels[i].height <= levels[i
                + 1].offset
            &&& levels[i + 1].width == levels[i].width / 2
            &&& levels[i + 1].height == levels[i].height / 2
        }
    &&& levels.last().offset + levels.last().width * levels.last().height <= len
}

/// The pixel at `(x, y)` of the level `level` of a pixel array.
pub open spec fn level_pixel(pixels: Seq<BGRA8>, level: MipLevel, x: int, y: int) -> BGRA8 {
    pixels[level.offset + (y * level.width + x)]
}

/// Level `cur` of `after` is the box-filtered reduction of level `prev` of
/// `after`, where a pixel whose whole neighbourhood is fully transparent has
/// its value in `before`.
pub open spec fn level_filtered(
    after: Seq<BGRA8>,
    before: Seq<BGRA8>,
    prev: MipLevel,
    cur: MipLevel,
) -> bool {
    forall|x: int, y: int|
        0 <= x < cur.width && 0 <= y < cur.height ==> #[trigger] level_pixel(after, cur, x, y)
            == box_filtered(
            after.subrange(prev.offset as int, cur.offset as int),
            prev.width as int,
            prev.height as int,
            x,
            y,
            level_pixel(before, cur, x, y),
        )
}

/// After one reduction step the new level is filtered and everything before
/// it is as it was.
proof fn lemma_reduction_step(
    before: Seq<BGRA8>,
    mid: Seq<BGRA8>,
    now: Seq<BGRA8>,
    src: Seq<BGRA8>,
    dst_before: Seq<BGRA8>,
    dst_after: Seq<BGRA8>,
    prev: MipLevel,
    cur: MipLevel,
)
    requires
        mid.len() == before.len(),
        0 < prev.width,
        0 < prev.height,
        prev.offset + prev.width * prev.height <= cur.offset,
        cur.offset + cur.width * cur.height <= mid.len(),
        cur.width == prev.width / 2,
        cur.height == prev.height / 2,
        src == mid.subrange(prev.offset as int, cur.offset as int),
        dst_before == mid.subrange(cur.offset as int, mid.len() as int),
        now == mid.subrange(0, cur.offset as int) + dst_after,
        dst_after.len() == dst_before.len(),
        forall|x: int, y: int|
            0 <= x < cur.width && 0 <= y < cur.height ==> #[trigger] grid_pixel(
                dst_after,
                cur.width as int,
                x,
                y,
            ) == box_filtered(
                src,
                prev.width as int,
                prev.height as int,
                x,
                y,
                grid_pixel(dst_before, cur.width as int, x, y),
            ),
        forall|i: int|
            cur.width * cur.height <= i < dst_before.len() ==> dst_after[i] == dst_before[i],
        forall|j: int| cur.offset <= j < mid.len() ==> mid[j] == before[j],
    ensures
        now.len() == mid.len(),
        level_filtered(now, before, prev, cur),
        forall|j: int| 0 <= j < cur.offset ==> now[j] == mid[j],
        forall|j: int| cur.offset + cur.width * cur.height <= j < mid.len() ==> now[j] == before[j],
{
    assert(now.subrange(prev.offset as int, cur.offset as int) =~= src);
    assert forall|x: int, y: int| 0 <= x < cur.width && 0 <= y < cur.height implies #[trigger] level_pixel(
        now,
        cur,
        x,
        y,
    ) == box_filtered(
        now.subrange(prev.offset as int, cur.offset as int),
        prev.width as int,
        prev.height as int,
        x,
        y,
        level_pixel(before, cur, x, y),
    ) by {
        crate::bitmap::lemma_cell_index(x, y, cur.width as int, cur.height as int);
        let k = y * cur.width + x;
        assert(now[cur.offset + k] == dst_after[k]);
        assert(dst_before[k] == mid[cur.offset + k]);
        assert(level_pixel(now, cur, x, y) == grid_pixel(dst_after, cur.width as int, x, y));
        assert(level_pixel(before, cur, x, y) == grid_pixel(dst_before, cur.width as int, x, y));
    }
    assert forall|j: int| cur.offset + cur.width * cur.height <= j < mid.len() implies now[j]
        == before[j] by {
        assert(now[j] == dst_after[j - cur.offset]);
        assert(dst_before[j - cur.offset] == mid[j]);
    }
}

/// A filtered level stays filtered when only later pixels change.
proof fn lemma_level_kept(
    mid: Seq<BGRA8>,
    now: Seq<BGRA8>,
    before: Seq<BGRA8>,
    prev: MipLevel,
    cur: MipLevel,
    bound: int,
)
    requires
        level_filtered(mid, before, prev, cur),
        now.len() == mid.len(),
        0 <= prev.offset <= cur.offset,
        cur.offset + cur.width * cur.height <= bound <= mid.len(),
        forall|j: int| 0 <= j < bound ==> now[j] == mid[j],
    ensures
        level_filtered(now, before, prev, cur),
{
    assert(now.subrange(prev.offset as int, cur.offset as int) =~= mid.subrange(
        prev.offset as int,
        cur.offset as int,
    )) by {
        assert(cur.width * cur.height >= 0) by (nonlinear_arith)
            requires
                cur.width >= 0,
                cur.height >= 0,
        ;
    }
    assert forall|x: int, y: int| 0 <= x < cur.width && 0 <= y < cur.height implies #[trigger] level_pixel(
        now,
        cur,
        x,
        y,
    ) == box_filtered(
        now.subrange(prev.offset as int, cur.offset as int),
        prev.width as int,
        prev.height as int,
        x,
        y,
        level_pixel(before, cur, x, y),
    ) by {
        crate::bitmap::lemma_cell_index(x, y, cur.width as int, cur.height as int);
        assert(level_pixel(now, cur, x, y) == level_pixel(mid, cur, x, y));
    }
}

proof fn lemma_chain_offsets(levels: Seq<MipLevel>, len: int, i: int, j: int)
    requires
        chained(levels, len),
        0 <= i <= j < levels.len(),
    ensures
        levels[i].offset <= levels[j].offset,
        levels[j].offset + levels[j].width * levels[j].height <= len,
        i < j ==> levels[i].offset + levels[i].width * levels[i].height <= levels[j].offset,
    decreases levels.len() - i,
{
    assert(levels[j].width * levels[j].height >= 0) by (nonlinear_arith)
        requires
            levels[j].width >= 0,
            levels[j].height >= 0,
    ;
    assert(levels[i].width * levels[i].height >= 0) by (nonlinear_arith)
        requires
            levels[i].width >= 0,
            levels[i].height >= 0,
    ;
    if j < levels.len() - 1 {
        lemma_chain_offsets(levels, len, j + 1, levels.len() - 1);
        assert(levels[j + 1].width * levels[j + 1].height >= 0) by (nonlinear_arith)
            requires
                levels[j + 1].width >= 0,
                levels[j + 1].height >= 0,
        ;
    }
    if i < j {
        lemma_chain_offsets(levels, len, i + 1, j);
    }
}

/// Fills level `cur` with the box-filtered reduction of level `prev`.
fn reduce_level(buffer: &mut [BGRA8], prev: MipLevel, cur: MipLevel)
    requires
        0 < prev.width < isize::MAX,
        0 < prev.height < isize::MAX,
        prev.offset + prev.width * prev.height <= cur.offset,
        cur.offset + cur.width * cur.height <= old(buffer)@.len(),
        cur.width == prev.width / 2,
        cur.height == prev.height / 2,
    ensures
        final(buffer)@.len() == old(buffer)@.len(),
        level_filtered(final(buffer)@, old(buffer)@, prev, cur),
        forall|j: int| 0 <= j < cur.offset ==> final(buffer)@[j] == old(buffer)@[j],
        forall|j: int|
            cur.offset + cur.width * cur.height <= j < old(buffer)@.len() ==> final(buffer)@[j]
                == old(buffer)@[j],
{
    let ghost mid = buffer@;
    proof {
        assert(cur.width * cur.height >= 0) by (nonlinear_arith)
            requires
                cur.width >= 0,
                cur.height >= 0,
        ;
        assert(prev.width * prev.height >= 0) by (nonlinear_arith)
            requires
                prev.width >= 0,
                prev.height >= 0,
        ;
    }
    let (head, dst) = buffer.split_at_mut(cur.offset);
    let src = &head[prev.offset..cur.offset];
    let ghost dst_before = dst@;
    downscale_3x3_box_filter(src, prev.width, prev.height, dst);
    proof {
        let now = buffer@;
        assert(now =~= mid.subrange(0, cur.offset as int) + dst@);
        assert(src@ =~= mid.subrange(prev.offset as int, cur.offset as int));
        assert(dst_before =~= mid.subrange(cur.offset as int, mid.len() as int));
        lemma_reduction_step(mid, mid, now, src@, dst_before, dst@, prev, cur);
    }
}

/// A texture: one pixel array that holds the image and its reduced copies.
#[derive(Debug)]
pub struct Texture {
    pub levels: [MipLevel; MIP_LEVELS],
    pub pixels: Vec<BGRA8>,
}

/// Why a bitmap cannot become a texture.
#[derive(Clone, Copy, Debug, PartialEq, Eq, Structural)]
pub enum TextureError {
    /// The bitmap does not hold `width * height` pixels.
    PixelCount,
    /// A side is not a power of two, or is shorter than four pixels.
    Dimensions,
}

/// `n` is a power of two.
pub open spec fn is_power_of_two(n: usize) -> bool {
    n > 0 && (n as u64) & ((n - 1) as u64) == 0
}

/// A side that a texture accepts: a power of two of at least four, so that
/// every level has a side that is a power of two.
pub open spec fn side_ok(n: usize) -> bool {
    4 <= n && is_power_of_two(n)
}

fn check_side(n: usize) -> (ok: bool)
    ensures
        ok == side_ok(n),
{
    4 <= n && (n as u64) & ((n - 1) as u64) == 0
}

impl Texture {
    /// Every level lies inside the pixel array, has at least one pixel, and
    /// has no side longer than the greatest signed index.
    pub open spec fn wf(&self) -> bool {
        &&& self.sides_ok()
        &&& forall|l: int|
            0 <= l < MIP_LEVELS ==> {
                &&& (#[trigger] self.levels@[l]).width > 0
                &&& self.levels@[l].height > 0
                &&& self.levels@[l].offset + self.levels@[l].width * self.levels@[l].height
                    <= self.pixels@.len()
            }
    }

    /// Every side of every level is a power of two, so that keeping the low
    /// bits of a coordinate wraps it around the level.
    pub open spec fn powers_of_two(&self) -> bool {
        forall|l: int|
            0 <= l < MIP_LEVELS ==> is_power_of_two((#[trigger] self.levels@[l]).width)
                && is_power_of_two(self.levels@[l].height)
    }

    /// No side of any level is longer than the greatest signed index.
    pub open spec fn sides_ok(&self) -> bool {
        forall|l: int|
            0 <= l < MIP_LEVELS ==> (#[trigger] self.levels@[l]).width <= isize::MAX
                && self.levels@[l].height <= isize::MAX
    }

    /// The pixel at `(x, y)` of level `level`.
    pub open spec fn texel(&self, x: int, y: int, level: int) -> BGRA8 {
        level_pixel(self.pixels@, self.levels@[level], x, y)
    }

    /// The levels of a texture made from a `width` by `height` image.
    pub open spec fn levels_for(width: usize, height: usize) -> Seq<MipLevel> {
        seq![
            MipLevel { width, height, offset: 0 },
            MipLevel {
                width: (width / 2) as usize,
                height: (height / 2) as usize,
                offset: (width * height) as usize,
            },
            MipLevel {
                width: (width / 4) as usize,
                height: (height / 4) as usize,
                offset: (width * height + (width / 2) * (height / 2)) as usize,
            },
        ]
    }

    /// Number of pixels that all levels of a `width` by `height` image take.
    pub open spec fn total_size(width: usize, height: usize) -> int {
        width * height + (width / 2) * (height / 2) + (width / 4) * (height / 4)
    }

    /// Builds a texture from an image whose sides are powers of two of at
    /// least four pixels. Level 0 is the image; each further level is the
    /// box-filtered reduction of the level before, over a transparent black
    /// ground. The pixels of all levels together must be no more than the
    /// machine can count.
    pub fn from_bitmap(bitmap: Bitmap) -> (r: Result<Texture, TextureError>)
        requires
            bitmap.wf() ==> Self::total_size(bitmap.width, bitmap.height) <= usize::MAX,
        ensures
            !bitmap.wf() ==> r == Err::<Texture, TextureError>(TextureError::PixelCount),
            bitmap.wf() && !(side_ok(bitmap.width) && side_ok(bitmap.height)) ==> r == Err::<
                Texture,
                TextureError,
            >(TextureError::Dimensions),
            bitmap.wf() && side_ok(bitmap.width) && side_ok(bitmap.height) ==> r.is_ok(),
            r.is_ok() ==> {
                let t = r.unwrap();
                &&& t.wf()
                &&& t.powers_of_two()
                &&& t.levels@ == Self::levels_for(bitmap.width, bitmap.height)
                &&& t.pixels@.len() == Self::total_size(bitmap.width, bitmap.height)
                &&& t.pixels@.subrange(0, bitmap.pixels@.len() as int) == bitmap.pixels@
                &&& level_filtered(
                    t.pixels@,
                    Seq::new(t.pixels@.len(), |i: int| BGRA8::clear()),
                    t.levels@[0],
                    t.levels@[1],
                )
                &&& level_filtered(
                    t.pixels@,
                    Seq::new(t.pixels@.len(), |i: int| BGRA8::clear()),
                    t.levels@[1],
                    t.levels@[2],
                )
            },
    {
        let width: usize = bitmap.width;
        let height: usize = bitmap.height;
        let count: usize = bitmap.pixels.len();
        let matches: bool = match width.checked_mul(height) {
            Some(n) => n == count,
            None => false,
        };
        if !matches {
            return Err(TextureError::PixelCount);
        }
        if !(check_side(width) && check_side(height)) {
            return Err(TextureError::Dimensions);
        }
        proof {
            lemma_sides_fit(width, height);
            lemma_sides_fit(height, width);
        }
        let levels = Self::calculate_mip_levels(&bitmap);
        let buffer_size: usize = levels[MIP_LEVELS - 1].offset + levels[MIP_LEVELS - 1].width
            * levels[MIP_LEVELS - 1].height;
        let mut pixels: Vec<BGRA8> = bitmap.pixels;
        let ghost image = pixels@;
        while pixels.len() < buffer_size
            invariant
                image.len() <= pixels@.len() <= buffer_size,
                pixels@.subrange(0, image.len() as int) == image,
                forall|i: int| image.len() <= i < pixels@.len() ==> pixels@[i] == BGRA8::clear(),
            decreases buffer_size - pixels.len(),
        {
            let ghost prior = pixels@;
            pixels.push(BGRA8::clear());
            assert(pixels@.subrange(0, image.len() as int) =~= prior.subrange(0, image.len() as int));
        }
        let ghost ground = pixels@;
        proof {
            assert(levels@ =~= Self::levels_for(width, height));
            lemma_halves_are_sides(width);
            lemma_halves_are_sides(height);
            assert(chained(levels@, pixels@.len() as int));
        }
        Self::generate_mip_maps(levels.as_slice(), pixels.as_mut_slice());
        let texture = Texture { levels, pixels };
        proof {
            let blank = Seq::new(texture.pixels@.len(), |i: int| BGRA8::clear());
            assert(texture.pixels@.subrange(0, image.len() as int) =~= image);
            assert(level_filtered(texture.pixels@, ground, levels@[0], levels@[1]));
            assert(level_filtered(texture.pixels@, ground, levels@[1], levels@[2]));
            lemma_chain_offsets(levels@, ground.len() as int, 0, 1);
            lemma_chain_offsets(levels@, ground.len() as int, 1, 2);
            lemma_chain_offsets(levels@, ground.len() as int, 2, 2);
            lemma_same_ground(texture.pixels@, ground, blank, levels@[0], levels@[1]);
            lemma_same_ground(texture.pixels@, ground, blank, levels@[1], levels@[2]);
            assert(texture.wf()) by {
                assert forall|l: int| 0 <= l < MIP_LEVELS implies {
                    &&& (#[trigger] texture.levels@[l]).width > 0
                    &&& texture.levels@[l].height > 0
                    &&& texture.levels@[l].offset + texture.levels@[l].width * texture.levels@[l].height <= texture.pixels@.len()
                } by {
                    lemma_chain_offsets(levels@, texture.pixels@.len() as int, l, l);
                }
            }
        }
        Ok(texture)
    }

    /// Lays out the levels of a texture made from `bitmap`.
    pub fn calculate_mip_levels(bitmap: &Bitmap) -> (levels: [MipLevel; MIP_LEVELS])
        requires
            Self::total_size(bitmap.width, bitmap.height) <= usize::MAX,
        ensures
            levels@ == Self::levels_for(bitmap.width, bitmap.height),
    {
        let width: usize = bitmap.width;
        let height: usize = bitmap.height;
        proof {
            lemma_products_nonnegative(width as int, height as int);
        }
        let first: usize = width * height;
        let second: usize = first + (width / 2) * (height / 2);
        let levels = [
            MipLevel { width, height, offset: 0 },
            MipLevel { width: width / 2, height: height / 2, offset: first },
            MipLevel { width: width / 4, height: height / 4, offset: second },
        ];
        assert(levels@ =~= Self::levels_for(bitmap.width, bitmap.height));
        levels
    }

    /// Fills every level after the first with the box-filtered reduction of
    /// the level before it. The first level is read, not written.
    #[verifier::rlimit(40)]
    pub fn generate_mip_maps(levels: &[MipLevel], buffer: &mut [BGRA8])
        requires
            chained(levels@, old(buffer)@.len() as int),
        ensures
            final(buffer)@.len() == old(buffer)@.len(),
            forall|i: int|
                0 <= i < levels@[0].offset + levels@[0].width * levels@[0].height
                    ==> final(buffer)@[i] == old(buffer)@[i],
            forall|l: int|
                1 <= l < levels@.len() ==> level_filtered(
                    final(buffer)@,
                    old(buffer)@,
                    levels@[l - 1],
                    #[trigger] levels@[l],
                ),
    {
        let ghost before = buffer@;
        let count: usize = levels.len();
        let mut i: usize = 1;
        while i < count
            invariant
                1 <= i <= count,
                count == levels@.len(),
                chained(levels@, before.len() as int),
                buffer@.len() == before.len(),
                forall|j: int|
                    0 <= j < levels@[0].offset + levels@[0].width * levels@[0].height
                        ==> buffer@[j] == before[j],
                forall|j: int| levels@[i - 1].offset + levels@[i - 1].width * levels@[i - 1].height <= j < before.len() ==> buffer@[j] == before[j],
                forall|l: int|
                    1 <= l < i ==> level_filtered(
                        buffer@,
                        before,
                        levels@[l - 1],
                        #[trigger] levels@[l],
                    ),
            decreases count - i,
        {
            let prev: MipLevel = levels[i - 1];
            let cur: MipLevel = levels[i];
            let ghost mid = buffer@;
            proof {
                lemma_chain_offsets(levels@, before.len() as int, i - 1, i as int);
                lemma_chain_offsets(levels@, before.len() as int, 0, i - 1);
                lemma_chain_offsets(levels@, before.len() as int, i as int, i as int);
            }
            reduce_level(buffer, prev, cur);
            proof {
                lemma_levels_after_step(levels@, before, mid, buffer@, i as int);
            }
            i = i + 1;
        }
    }

    /// Reads the pixel at `(x, y)` of level `level`.
    pub fn sample(&self, x: usize, y: usize, level: usize) -> (c: BGRA8)
        requires
            self.wf(),
            level < MIP_LEVELS,
            x < self.levels@[level as int].width,
            y < self.levels@[level as int].height,
        ensures
            c == self.texel(x as int, y as int, level as int),
    {
        let m: MipLevel = self.levels[level];
        let len: usize = self.pixels.len();
        proof {
            crate::bitmap::lemma_cell_index(x as int, y as int, m.width as int, m.height as int);
        }
        let local_offset: usize = y * m.width + x;
        let global_offset: usize = m.offset + local_offset;
        self.pixels[global_offset]
    }
}

/// After level `i` has been reduced from the level before it, every level
/// up to `i` is filtered, and the pixels of level 0 and those after level
/// `i` are as they were at the start.
proof fn lemma_levels_after_step(
    levels: Seq<MipLevel>,
    before: Seq<BGRA8>,
    mid: Seq<BGRA8>,
    now: Seq<BGRA8>,
    i: int,
)
    requires
        chained(levels, before.len() as int),
        1 <= i < levels.len(),
        mid.len() == before.len(),
        now.len() == before.len(),
        forall|l: int|
            1 <= l < i ==> level_filtered(mid, before, levels[l - 1], #[trigger] levels[l]),
        forall|j: int|
            levels[i - 1].offset + levels[i - 1].width * levels[i - 1].height <= j < before.len()
                ==> mid[j] == before[j],
        forall|j: int|
            0 <= j < levels[0].offset + levels[0].width * levels[0].height ==> mid[j] == before[j],
        level_filtered(now, mid, levels[i - 1], levels[i]),
        forall|j: int| 0 <= j < levels[i].offset ==> now[j] == mid[j],
        forall|j: int|
            levels[i].offset + levels[i].width * levels[i].height <= j < before.len() ==> now[j]
                == mid[j],
    ensures
        forall|l: int|
            1 <= l < i + 1 ==> level_filtered(now, before, levels[l - 1], #[trigger] levels[l]),
        forall|j: int|
            levels[i].offset + levels[i].width * levels[i].height <= j < before.len() ==> now[j]
                == before[j],
        forall|j: int|
            0 <= j < levels[0].offset + levels[0].width * levels[0].height ==> now[j] == before[j],
{
    let prev = levels[i - 1];
    let cur = levels[i];
    let len = before.len() as int;
    lemma_chain_offsets(levels, len, i - 1, i);
    lemma_chain_offsets(levels, len, 0, i - 1);
    lemma_chain_offsets(levels, len, 0, i);
    lemma_chain_offsets(levels, len, i, i);
    assert(cur.width * cur.height >= 0) by (nonlinear_arith)
        requires
            cur.width >= 0,
            cur.height >= 0,
    ;
    assert(prev.width * prev.height >= 0) by (nonlinear_arith)
        requires
            prev.width >= 0,
            prev.height >= 0,
    ;
    assert forall|j: int| cur.offset <= j < mid.len() implies mid[j] == before[j] by {}
    lemma_same_ground(now, mid, before, prev, cur);
    assert forall|l: int| 1 <= l < i + 1 implies level_filtered(
        now,
        before,
        levels[l - 1],
        #[trigger] levels[l],
    ) by {
        if l < i {
            lemma_chain_offsets(levels, len, l, i);
            lemma_chain_offsets(levels, len, l - 1, l);
            lemma_level_kept(mid, now, before, levels[l - 1], levels[l], cur.offset as int);
        }
    }
    assert forall|j: int| 0 <= j < levels[0].offset + levels[0].width * levels[0].height implies now[j]
        == before[j] by {
        if i == 1 {
            assert(j < cur.offset);
        } else {
            lemma_chain_offsets(levels, len, 0, i - 1);
            assert(j < cur.offset);
        }
    }
}

proof fn lemma_same_ground(
    after: Seq<BGRA8>,
    ground: Seq<BGRA8>,
    other: Seq<BGRA8>,
    prev: MipLevel,
    cur: MipLevel,
)
    requires
        level_filtered(after, ground, prev, cur),
        ground.len() == other.len(),
        cur.offset + cur.width * cur.height <= ground.len(),
        forall|i: int| cur.offset <= i < ground.len() ==> ground[i] == other[i],
    ensures
        level_filtered(after, other, prev, cur),
{
    assert forall|x: int, y: int| 0 <= x < cur.width && 0 <= y < cur.height implies #[trigger] level_pixel(
        after,
        cur,
        x,
        y,
    ) == box_filtered(
        after.subrange(prev.offset as int, cur.offset as int),
        prev.width as int,
        prev.height as int,
        x,
        y,
        level_pixel(other, cur, x, y),
    ) by {
        crate::bitmap::lemma_cell_index(x, y, cur.width as int, cur.height as int);
        assert(level_pixel(ground, cur, x, y) == level_pixel(other, cur, x, y));
    }
}

proof fn lemma_products_nonnegative(w: int, h: int)
    requires
        0 <= w,
        0 <= h,
    ensures
        0 <= w * h,
        0 <= (w / 2) * (h / 2) <= w * h,
        0 <= (w / 4) * (h / 4) <= w * h,
{
    assert(0 <= w * h) by (nonlinear_arith)
        requires
            0 <= w,
            0 <= h,
    ;
    assert(0 <= (w / 2) * (h / 2) <= w * h) by (nonlinear_arith)
        requires
            0 <= w,
            0 <= h,
    ;
    assert(0 <= (w / 4) * (h / 4) <= w * h) by (nonlinear_arith)
        requires
            0 <= w,
            0 <= h,
    ;
}

/// A side of an image that the machine can hold, whose other side is at
/// least four pixels long, is shorter than the greatest signed index.
proof fn lemma_sides_fit(w: usize, h: usize)
    requires
        w * h <= usize::MAX,
        h >= 4,
    ensures
        w < isize::MAX,
{
    assert(w * 4 <= w * h) by (nonlinear_arith)
        requires
            w >= 0,
            h >= 4,
    ;
}

proof fn lemma_halves_are_sides(n: usize)
    requires
        side_ok(n),
    ensures
        n / 2 >= 2,
        n / 4 >= 1,
        is_power_of_two((n / 2) as usize),
        is_power_of_two((n / 4) as usize),
{
    let m = n as u64;
    assert(m >= 4 && m & ((m - 1) as u64) == 0 ==> (m / 2) & ((m / 2 - 1) as u64) == 0 && (m / 4)
        & ((m / 4 - 1) as u64) == 0) by (bit_vector);
}

} // verus!
