//! The pixel grid that a frame is drawn into.

use vstd::prelude::*;
use crate::bitmap::lemma_cell_index;
use crate::bitmap::lemma_cell_index_injective;
use crate::colour::blend_channel;
use crate::colour::BGRA8;
use crate::fixed::Fixed;
use crate::maths::vec::Vec2f;

verus! {

/// The largest width or height of a framebuffer: clip bounds are stored in
/// sixteen bits.
pub const MAX_SIDE: usize = 0xFFFF;

/// A rectangle of pixels stored row by row.
pub struct Framebuffer {
    pub width: usize,
    pub height: usize,
    pub pixels: Vec<BGRA8>,
}

/// `src` laid over `dst`, weighted by the alpha of `src`; the alpha of `dst`
/// is kept.
pub open spec fn blended_over(src: BGRA8, dst: BGRA8) -> BGRA8 {
    BGRA8 {
        b: blend_channel(src.b, dst.b, src.a),
        g: blend_channel(src.g, dst.g, src.a),
        r: blend_channel(src.r, dst.r, src.a),
        a: dst.a,
    }
}

/// The pixels after the `k` pixels of row `y` from column `x` on have been
/// set to `colour`.
pub open spec fn h_line_drawn(
    pixels: Seq<BGRA8>,
    width: int,
    x: int,
    y: int,
    k: int,
    colour: BGRA8,
) -> Seq<BGRA8>
    decreases k,
{
    if k <= 0 {
        pixels
    } else {
        h_line_drawn(pixels, width, x, y, k - 1, colour).update(y * width + x + k - 1, colour)
    }
}

/// The pixel nearest to a position on a screen of `width` by `height`
/// pixels.
pub open spec fn spec_nearest_pixel(position: Vec2f, width: usize, height: usize) -> (usize, usize) {
    (
        position.x.spec_plus(Fixed::spec_one().spec_half()).spec_to_index((width - 1) as usize),
        position.y.spec_plus(Fixed::spec_one().spec_half()).spec_to_index((height - 1) as usize),
    )
}

/// The pixels after `k` steps of a line have been drawn: at each step the
/// pixel nearest to the position is set and the position moves on by
/// `increment`.
pub open spec fn line_drawn(
    pixels: Seq<BGRA8>,
    width: usize,
    height: usize,
    start: Vec2f,
    increment: Vec2f,
    k: int,
    colour: BGRA8,
) -> Seq<BGRA8>
    decreases k,
{
    if k <= 0 {
        pixels
    } else {
        let at = spec_nearest_pixel(line_position(start, increment, k - 1), width, height);
        line_drawn(pixels, width, height, start, increment, k - 1, colour).update(
            at.1 * width + at.0,
            colour,
        )
    }
}

/// The position of a line after `k` steps.
pub open spec fn line_position(start: Vec2f, increment: Vec2f, k: int) -> Vec2f
    decreases k,
{
    if k <= 0 {
        start
    } else {
        line_position(start, increment, k - 1).spec_plus(increment)
    }
}

/// A coordinate held to the screen: no less than zero and no more than
/// `last`.
pub open spec fn spec_clamp_to_screen(v: Fixed, last: usize) -> Fixed {
    if v.raw < 0 {
        Fixed::spec_zero()
    } else if v.raw > Fixed::spec_from_index(last).raw {
        Fixed::spec_from_index(last)
    } else {
        v
    }
}

/// A coordinate held to the screen.
#[verifier::when_used_as_spec(spec_clamp_to_screen)]
pub fn clamp_to_screen(v: Fixed, last: usize) -> (r: Fixed)
    ensures
        r == spec_clamp_to_screen(v, last),
{
    if v.raw < 0 {
        Fixed::zero()
    } else if v.raw > Fixed::from_index(last).raw {
        Fixed::from_index(last)
    } else {
        v
    }
}

impl Framebuffer {
    /// One pixel per position, and sides that fit in sixteen bits.
    pub open spec fn wf(&self) -> bool {
        &&& self.width <= MAX_SIDE
        &&& self.height <= MAX_SIDE
        &&& self.pixels@.len() == self.width * self.height
    }

    /// The pixel at column `x` of row `y`.
    pub open spec fn at(&self, x: int, y: int) -> BGRA8 {
        self.pixels@[y * self.width + x]
    }

    /// `(x, y)` is a position of the grid.
    pub open spec fn inside(&self, x: int, y: int) -> bool {
        0 <= x < self.width && 0 <= y < self.height
    }

    /// Same size as `other`, and the same pixel everywhere but at `(x, y)`.
    pub open spec fn same_except(&self, other: &Framebuffer, x: int, y: int) -> bool {
        &&& self.width == other.width
        &&& self.height == other.height
        &&& forall|i: int, j: int|
            other.inside(i, j) && !(i == x && j == y) ==> #[trigger] self.at(i, j) == other.at(
                i,
                j,
            )
    }

    /// A grid of `width` by `height` transparent black pixels.
    pub fn new(width: usize, height: usize) -> (fb: Framebuffer)
        requires
            width <= MAX_SIDE,
            height <= MAX_SIDE,
        ensures
            fb.wf(),
            fb.width == width,
            fb.height == height,
            forall|i: int| 0 <= i < fb.pixels@.len() ==> fb.pixels@[i] == BGRA8::clear(),
    {
        proof {
            assert(0 <= width * height <= 0xFFFF * 0xFFFF) by (nonlinear_arith)
                requires
                    0 <= width <= 0xFFFF,
                    0 <= height <= 0xFFFF,
            ;
        }
        let len: usize = width * height;
        let mut pixels: Vec<BGRA8> = Vec::new();
        while pixels.len() < len
            invariant
                pixels@.len() <= len,
                forall|i: int| 0 <= i < pixels@.len() ==> pixels@[i] == BGRA8::clear(),
            decreases len - pixels.len(),
        {
            pixels.push(BGRA8::clear());
        }
        Framebuffer { width, height, pixels }
    }

    pub open spec fn spec_width(&self) -> usize {
        self.width
    }

    #[verifier::when_used_as_spec(spec_width)]
    pub fn width(&self) -> (w: usize)
        ensures
            w == self.width,
    {
        self.width
    }

    pub open spec fn spec_height(&self) -> usize {
        self.height
    }

    #[verifier::when_used_as_spec(spec_height)]
    pub fn height(&self) -> (h: usize)
        ensures
            h == self.height,
    {
        self.height
    }

    pub open spec fn spec_half_width(&self) -> Fixed {
        Fixed::spec_from_index(self.width).spec_half()
    }

    /// Half the width, in pixels.
    #[verifier::when_used_as_spec(spec_half_width)]
    pub fn half_width(&self) -> (r: Fixed)
        ensures
            r == self.spec_half_width(),
    {
        Fixed::from_index(self.width).half()
    }

    pub open spec fn spec_half_height(&self) -> Fixed {
        Fixed::spec_from_index(self.height).spec_half()
    }

    /// Half the height, in pixels.
    #[verifier::when_used_as_spec(spec_half_height)]
    pub fn half_height(&self) -> (r: Fixed)
        ensures
            r == self.spec_half_height(),
    {
        Fixed::from_index(self.height).half()
    }

    pub open spec fn spec_aspect_ratio(&self) -> Fixed {
        Fixed::spec_from_index(self.width).spec_over(Fixed::spec_from_index(self.height))
    }

    /// Width over height.
    #[verifier::when_used_as_spec(spec_aspect_ratio)]
    pub fn aspect_ratio(&self) -> (r: Fixed)
        ensures
            r == self.spec_aspect_ratio(),
    {
        Fixed::from_index(self.width).over(Fixed::from_index(self.height))
    }

    /// The pixels, row by row.
    pub fn pixels(&self) -> (p: &[BGRA8])
        ensures
            p@ == self.pixels@,
    {
        self.pixels.as_slice()
    }

    /// The pixels as words, blue in the lowest byte of each.
    pub fn pixels_as_u32(&self) -> (words: Vec<u32>)
        ensures
            words@.len() == self.pixels@.len(),
            forall|i: int| 0 <= i < words@.len() ==> words@[i] == self.pixels@[i].spec_as_u32(),
    {
        let mut words: Vec<u32> = Vec::new();
        let mut i: usize = 0;
        while i < self.pixels.len()
            invariant
                i <= self.pixels@.len(),
                words@.len() == i,
                forall|k: int| 0 <= k < i ==> words@[k] == self.pixels@[k].spec_as_u32(),
            decreases self.pixels@.len() - i,
        {
            words.push(self.pixels[i].as_u32());
            i = i + 1;
        }
        words
    }

    /// The pixels as bytes: blue, green, red and alpha of each in turn.
    pub fn pixels_as_u8(&self) -> (bytes: Vec<u8>)
        ensures
            bytes@.len() == 4 * self.pixels@.len(),
            forall|i: int|
                0 <= i < self.pixels@.len() ==> {
                    &&& bytes@[4 * i] == (#[trigger] self.pixels@[i]).b
                    &&& bytes@[4 * i + 1] == self.pixels@[i].g
                    &&& bytes@[4 * i + 2] == self.pixels@[i].r
                    &&& bytes@[4 * i + 3] == self.pixels@[i].a
                },
    {
        let mut bytes: Vec<u8> = Vec::new();
        let mut i: usize = 0;
        while i < self.pixels.len()
            invariant
                i <= self.pixels@.len(),
                bytes@.len() == 4 * i,
                forall|k: int|
                    0 <= k < i ==> {
                        &&& bytes@[4 * k] == (#[trigger] self.pixels@[k]).b
                        &&& bytes@[4 * k + 1] == self.pixels@[k].g
                        &&& bytes@[4 * k + 2] == self.pixels@[k].r
                        &&& bytes@[4 * k + 3] == self.pixels@[k].a
                    },
            decreases self.pixels@.len() - i,
        {
            let p: BGRA8 = self.pixels[i];
            bytes.push(p.b);
            bytes.push(p.g);
            bytes.push(p.r);
            bytes.push(p.a);
            i = i + 1;
        }
        bytes
    }

    /// Sets every pixel to `colour`.
    pub fn fill(&mut self, colour: BGRA8)
        ensures
            final(self).width == old(self).width,
            final(self).height == old(self).height,
            final(self).pixels@.len() == old(self).pixels@.len(),
            forall|i: int| 0 <= i < final(self).pixels@.len() ==> final(self).pixels@[i] == colour,
    {
        let mut i: usize = 0;
        let len: usize = self.pixels.len();
        while i < len
            invariant
                i <= len,
                len == self.pixels@.len(),
                self.width == old(self).width,
                self.height == old(self).height,
                self.pixels@.len() == old(self).pixels@.len(),
                forall|k: int| 0 <= k < i ==> self.pixels@[k] == colour,
            decreases len - i,
        {
            self.pixels[i] = colour;
            i = i + 1;
        }
    }

    /// Sets the pixel at `(x, y)`.
    pub fn set_pixel(&mut self, x: usize, y: usize, colour: BGRA8)
        requires
            old(self).wf(),
            x < old(self).width,
            y < old(self).height,
        ensures
            final(self).wf(),
            final(self).at(x as int, y as int) == colour,
            final(self).same_except(old(self), x as int, y as int),
            final(self).pixels@ == old(self).pixels@.update(y * old(self).width + x, colour),
    {
        let len: usize = self.pixels.len();
        proof {
            lemma_cell_index(x as int, y as int, self.width as int, self.height as int);
        }
        let index: usize = (y * self.width) + x;
        self.pixels[index] = colour;
        proof {
            assert forall|i: int, j: int| old(self).inside(i, j) && !(i == x && j == y) implies #[trigger] self.at(i, j) == old(self).at(i, j) by {
                lemma_cell_index(i, j, self.width as int, self.height as int);
                if j * self.width + i == index {
                    lemma_cell_index_injective(i, j, x as int, y as int, self.width as int);
                }
            }
        }
    }

    /// Sets the pixel at `(x, y)`; for callers that have already clipped.
    pub fn set_pixel_unchecked(&mut self, x: usize, y: usize, colour: BGRA8)
        requires
            old(self).wf(),
            x < old(self).width,
            y < old(self).height,
        ensures
            final(self).wf(),
            final(self).at(x as int, y as int) == colour,
            final(self).same_except(old(self), x as int, y as int),
            final(self).pixels@ == old(self).pixels@.update(y * old(self).width + x, colour),
    {
        self.set_pixel(x, y, colour)
    }

    /// The pixel at `(x, y)`.
    pub fn get_pixel(&self, x: usize, y: usize) -> (c: BGRA8)
        requires
            self.wf(),
            x < self.width,
            y < self.height,
        ensures
            c == self.at(x as int, y as int),
    {
        let len: usize = self.pixels.len();
        proof {
            lemma_cell_index(x as int, y as int, self.width as int, self.height as int);
        }
        let index: usize = (y * self.width) + x;
        self.pixels[index]
    }

    /// The pixel at `(x, y)`; for callers that have already clipped.
    pub fn get_pixel_unchecked(&self, x: usize, y: usize) -> (c: BGRA8)
        requires
            self.wf(),
            x < self.width,
            y < self.height,
        ensures
            c == self.at(x as int, y as int),
    {
        self.get_pixel(x, y)
    }

    /// Lays `colour` over the pixel at `(x, y)`, weighted by the alpha of
    /// `colour`. The pixel keeps its own alpha.
    pub fn blend_pixel(&mut self, x: usize, y: usize, colour: BGRA8)
        requires
            old(self).wf(),
            x < old(self).width,
            y < old(self).height,
        ensures
            final(self).wf(),
            final(self).at(x as int, y as int) == blended_over(
                colour,
                old(self).at(x as int, y as int),
            ),
            final(self).same_except(old(self), x as int, y as int),
    {
        let under: BGRA8 = self.get_pixel(x, y);
        let mixed: BGRA8 = colour.blend(under);
        self.set_pixel(x, y, BGRA8 { b: mixed.b, g: mixed.g, r: mixed.r, a: under.a });
    }

    /// Lays `colour` over the pixel at `(x, y)`; for callers that have
    /// already clipped.
    pub fn blend_pixel_unchecked(&mut self, x: usize, y: usize, colour: BGRA8)
        requires
            old(self).wf(),
            x < old(self).width,
            y < old(self).height,
        ensures
            final(self).wf(),
            final(self).at(x as int, y as int) == blended_over(
                colour,
                old(self).at(x as int, y as int),
            ),
            final(self).same_except(old(self), x as int, y as int),
    {
        self.blend_pixel(x, y, colour)
    }

    /// Sets the `len` pixels of row `y` that start at column `x`.
    pub fn draw_h_line(&mut self, x: usize, y: usize, len: usize, colour: BGRA8)
        requires
            old(self).wf(),
            y < old(self).height,
            x + len <= old(self).width,
        ensures
            final(self).wf(),
            final(self).width == old(self).width,
            final(self).height == old(self).height,
            forall|i: int, j: int|
                old(self).inside(i, j) ==> #[trigger] final(self).at(i, j) == if j == y && x <= i
                    < x + len {
                    colour
                } else {
                    old(self).at(i, j)
                },
    {
        let mut k: usize = 0;
        while k < len
            invariant
                k <= len,
                self.wf(),
                self.width == old(self).width,
                self.height == old(self).height,
                y < self.height,
                x + len <= self.width,
                forall|i: int, j: int|
                    old(self).inside(i, j) ==> #[trigger] self.at(i, j) == if j == y && x <= i < x
                        + k {
                        colour
                    } else {
                        old(self).at(i, j)
                    },
            decreases len - k,
        {
            let ghost prior = *self;
            self.set_pixel(x + k, y, colour);
            proof {
                assert forall|i: int, j: int| old(self).inside(i, j) implies #[trigger] self.at(i, j) == if j == y && x <= i < x + k + 1 {
                    colour
                } else {
                    old(self).at(i, j)
                } by {
                    if !(i == x + k && j == y) {
                        assert(self.at(i, j) == prior.at(i, j));
                    }
                }
            }
            k = k + 1;
        }
    }

    /// Sets the `len` pixels of row `y` that start at column `x`; for
    /// callers that have already clipped.
    pub fn draw_h_line_unchecked(&mut self, x: usize, y: usize, len: usize, colour: BGRA8)
        requires
            old(self).wf(),
            y < old(self).height,
            x + len <= old(self).width,
        ensures
            final(self).wf(),
            final(self).width == old(self).width,
            final(self).height == old(self).height,
            final(self).pixels@ == h_line_drawn(
                old(self).pixels@,
                old(self).width as int,
                x as int,
                y as int,
                len as int,
                colour,
            ),
    {
        let mut k: usize = 0;
        while k < len
            invariant
                k <= len,
                self.wf(),
                self.width == old(self).width,
                self.height == old(self).height,
                y < self.height,
                x + len <= self.width,
                self.pixels@ == h_line_drawn(
                    old(self).pixels@,
                    old(self).width as int,
                    x as int,
                    y as int,
                    k as int,
                    colour,
                ),
            decreases len - k,
        {
            self.set_pixel(x + k, y, colour);
            k = k + 1;
        }
    }

    /// Draws a line from `start` to `end`, both held to the screen: as many
    /// steps as the line is long along its longer side, each the same part
    /// of the way.
    pub fn draw_line(&mut self, start: Vec2f, end: Vec2f, colour: BGRA8)
        requires
            old(self).wf(),
            old(self).width > 0,
            old(self).height > 0,
        ensures
            final(self).wf(),
            final(self).width == old(self).width,
            final(self).height == old(self).height,
            ({
                let from = Vec2f {
                    x: spec_clamp_to_screen(start.x, (old(self).width - 1) as usize),
                    y: spec_clamp_to_screen(start.y, (old(self).height - 1) as usize),
                };
                let to = Vec2f {
                    x: spec_clamp_to_screen(end.x, (old(self).width - 1) as usize),
                    y: spec_clamp_to_screen(end.y, (old(self).height - 1) as usize),
                };
                let delta = to.spec_minus(from);
                let steps = delta.x.spec_abs().spec_max(delta.y.spec_abs());
                final(self).pixels@ == line_drawn(
                    old(self).pixels@,
                    old(self).width,
                    old(self).height,
                    from,
                    delta.spec_divided(steps),
                    steps.spec_to_index(MAX_SIDE) as int,
                    colour,
                )
            }),
    {
        let from = Vec2f {
            x: clamp_to_screen(start.x, self.width - 1),
            y: clamp_to_screen(start.y, self.height - 1),
        };
        let to = Vec2f {
            x: clamp_to_screen(end.x, self.width - 1),
            y: clamp_to_screen(end.y, self.height - 1),
        };
        let delta = to.minus(from);
        let steps = delta.x.abs().max(delta.y.abs());
        let increment = delta.divided(steps);
        let count: usize = steps.to_index(MAX_SIDE);
        let mut position = from;
        let mut k: usize = 0;
        while k < count
            invariant
                k <= count,
                self.wf(),
                self.width == old(self).width,
                self.height == old(self).height,
                self.width > 0,
                self.height > 0,
                position == line_position(from, increment, k as int),
                self.pixels@ == line_drawn(
                    old(self).pixels@,
                    old(self).width,
                    old(self).height,
                    from,
                    increment,
                    k as int,
                    colour,
                ),
            decreases count - k,
        {
            let x: usize = position.x.plus(Fixed::one().half()).to_index(self.width - 1);
            let y: usize = position.y.plus(Fixed::one().half()).to_index(self.height - 1);
            self.set_pixel(x, y, colour);
            position = position.plus(increment);
            k = k + 1;
        }
    }
}

} // verus!
