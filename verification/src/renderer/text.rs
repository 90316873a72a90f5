//! Text, drawn from the runs of a font.

use vstd::prelude::*;
use vstd::string::StringSliceAdditionalSpecFns;
use crate::colour::BGRA8;
use crate::font::AlignHeight;
use crate::font::AlignWidth;
use crate::font::Font;
use crate::font::RunLength;
use crate::renderer::framebuffer::h_line_drawn;
use crate::renderer::framebuffer::Framebuffer;
use crate::renderer::state::RendererState;

verus! {

/// The byte that ends a line.
pub const NEWLINE: u8 = 10;

/// A text of `len` bytes is short enough for the machine to count the
/// pixels it spans: each byte moves the pen by no more than 0xFFFF pixels.
pub open spec fn text_countable(len: int) -> bool {
    (len + 2) * 0xFFFF <= usize::MAX
}

/// How much of a run of `run_len` pixels that starts at column `at` lies
/// on a screen `width` pixels wide.
pub open spec fn spec_clipped_len(run_len: usize, width: usize, at: usize) -> usize {
    if at >= width {
        0
    } else if run_len > width - at {
        (width - at) as usize
    } else {
        run_len
    }
}

/// How much of a run of `run_len` pixels that starts at column `at` lies
/// on a screen `width` pixels wide.
#[verifier::when_used_as_spec(spec_clipped_len)]
pub fn clipped_len(run_len: usize, width: usize, at: usize) -> (r: usize)
    ensures
        r == spec_clipped_len(run_len, width, at),
        at + r <= width || r == 0,
{
    if at >= width {
        0
    } else if run_len > width - at {
        width - at
    } else {
        run_len
    }
}

/// The pixels after the runs from `i` up to `end` of a character have been
/// drawn with its top left at `(x, y)`, the next run starting `ox` pixels
/// right and `oy` rows down of there. A run of a value above zero is drawn
/// as far as it lies on the screen; a run that fills the row moves on to
/// the next row, and the character ends where the screen ends.
pub open spec fn char_drawn(
    pixels: Seq<BGRA8>,
    width: usize,
    height: usize,
    runs: Seq<RunLength>,
    char_width: usize,
    i: int,
    end: int,
    x: int,
    y: int,
    ox: int,
    oy: int,
    colour: BGRA8,
) -> Seq<BGRA8>
    decreases end - i,
{
    if i >= end {
        pixels
    } else {
        let run = runs[i];
        let len = spec_clipped_len(run.len, width, (x + ox) as usize);
        let drawn = if run.value > 0 && len > 0 {
            h_line_drawn(pixels, width as int, x + ox, y + oy, len as int, colour)
        } else {
            pixels
        };
        let next_x = if ox + run.len >= char_width {
            0
        } else {
            ox + run.len
        };
        let next_y = if ox + run.len >= char_width {
            oy + 1
        } else {
            oy
        };
        if y + next_y >= height {
            drawn
        } else {
            char_drawn(
                drawn,
                width,
                height,
                runs,
                char_width,
                i + 1,
                end,
                x,
                y,
                next_x,
                next_y,
                colour,
            )
        }
    }
}

/// The pixels after the bytes from `i` on of a text have been drawn with
/// its top left at `(x, y)`, the next character `ox` pixels right and `oy`
/// rows down of there. A newline goes to the start of the next line; a
/// character below the screen ends the text; a character right of the
/// screen is passed over.
pub open spec fn text_drawn(
    pixels: Seq<BGRA8>,
    width: usize,
    height: usize,
    font: &Font,
    bytes: Seq<u8>,
    i: int,
    x: int,
    y: int,
    ox: int,
    oy: int,
    colour: BGRA8,
) -> Seq<BGRA8>
    decreases bytes.len() - i,
{
    if i >= bytes.len() {
        pixels
    } else if bytes[i] == NEWLINE {
        text_drawn(
            pixels,
            width,
            height,
            font,
            bytes,
            i + 1,
            x,
            y,
            0,
            oy + font.char_height,
            colour,
        )
    } else if y + oy >= height {
        pixels
    } else if x + ox >= width {
        text_drawn(
            pixels,
            width,
            height,
            font,
            bytes,
            i + 1,
            x,
            y,
            ox + font.char_width,
            oy,
            colour,
        )
    } else {
        let metadata = font.char_metadata@[bytes[i] as int];
        text_drawn(
            char_drawn(
                pixels,
                width,
                height,
                font.run_lengths@,
                font.char_width,
                metadata.offset as int,
                metadata.offset + metadata.len,
                x + ox,
                y + oy,
                0,
                0,
                colour,
            ),
            width,
            height,
            font,
            bytes,
            i + 1,
            x,
            y,
            ox + font.char_width,
            oy,
            colour,
        )
    }
}

/// The width of the widest line that a newline ends, the height of all
/// lines, and the width of the line that is open, after the first `n`
/// bytes of a text.
pub open spec fn text_extent(bytes: Seq<u8>, char_width: usize, char_height: usize, n: int) -> (
    int,
    int,
    int,
)
    decreases n,
{
    if n <= 0 {
        (0, char_height as int, 0)
    } else {
        let prev = text_extent(bytes, char_width, char_height, n - 1);
        if bytes[n - 1] == NEWLINE {
            (
                if prev.0 > prev.2 {
                    prev.0
                } else {
                    prev.2
                },
                prev.1 + char_height,
                0,
            )
        } else {
            (prev.0, prev.1, prev.2 + char_width)
        }
    }
}

/// Where the top left of a text of the given extent lies that is drawn at
/// `(x, y)` with the given alignment; never left of or above the screen.
pub open spec fn aligned_origin(
    align: (AlignWidth, AlignHeight),
    x: usize,
    y: usize,
    text_width: int,
    text_height: int,
) -> (int, int) {
    (
        match align.0 {
            AlignWidth::Left => x as int,
            AlignWidth::Centre => if x >= text_width / 2 {
                x - text_width / 2
            } else {
                0
            },
            AlignWidth::Right => if x >= text_width {
                x - text_width
            } else {
                0
            },
        },
        match align.1 {
            AlignHeight::Top => y as int,
            AlignHeight::Centre => if y >= text_height / 2 {
                y - text_height / 2
            } else {
                0
            },
            AlignHeight::Bottom => if y >= text_height {
                y - text_height
            } else {
                0
            },
        },
    )
}

/// Every byte of the text that is not a newline is a character of the
/// font.
pub open spec fn text_fits(font: &Font, bytes: Seq<u8>) -> bool {
    forall|i: int|
        0 <= i < bytes.len() ==> (#[trigger] bytes[i]) == NEWLINE || bytes[i]
            < font.char_metadata@.len()
}

/// The pixels after a text has been drawn at `(x, y)` with the given
/// alignment: nothing, if its top left lies right of or below the screen.
pub open spec fn text_rendered(
    pixels: Seq<BGRA8>,
    width: usize,
    height: usize,
    font: &Font,
    bytes: Seq<u8>,
    align: (AlignWidth, AlignHeight),
    x: usize,
    y: usize,
    colour: BGRA8,
) -> Seq<BGRA8> {
    let extent = text_extent(bytes, font.char_width, font.char_height, bytes.len() as int);
    let origin = aligned_origin(align, x, y, extent.0, extent.1);
    if origin.0 >= width || origin.1 >= height {
        pixels
    } else {
        text_drawn(pixels, width, height, font, bytes, 0, origin.0, origin.1, 0, 0, colour)
    }
}

/// Draws text into the framebuffer.
pub struct TextRenderer {}

impl TextRenderer {
    pub fn new(state: &RendererState) -> (r: TextRenderer) {
        TextRenderer {  }
    }

    /// Draws `text` in `colour` at `(x, y)`, aligned as `align` says.
    pub fn render(
        &self,
        state: &mut RendererState,
        font: &Font,
        colour: BGRA8,
        align: (AlignWidth, AlignHeight),
        x: usize,
        y: usize,
        text: &str,
    )
        requires
            old(state).framebuffer.wf(),
            font.wf(),
            text_countable(text.spec_bytes().len() as int),
            text_fits(font, text.spec_bytes()),
        ensures
            final(state).framebuffer.wf(),
            final(state).same_view(old(state)),
            final(state).framebuffer.pixels@ == text_rendered(
                old(state).framebuffer.pixels@,
                old(state).framebuffer.width,
                old(state).framebuffer.height,
                font,
                text.spec_bytes(),
                align,
                x,
                y,
                colour,
            ),
    {
        let bytes = text.as_bytes();
        let mut text_width: usize = 0;
        let mut text_height: usize = font.char_height();
        let mut current_line_width: usize = 0;
        let mut i: usize = 0;
        while i < bytes.len()
            invariant
                i <= bytes@.len(),
                text_countable(bytes@.len() as int),
                font.wf(),
                text_width <= i * 0xFFFF,
                current_line_width <= i * 0xFFFF,
                text_height <= (i + 1) * 0xFFFF,
                (text_width as int, text_height as int, current_line_width as int) == text_extent(
                    bytes@,
                    font.char_width,
                    font.char_height,
                    i as int,
                ),
            decreases bytes@.len() - i,
        {
            if bytes[i] == NEWLINE {
                text_height = text_height + font.char_height();
                if current_line_width > text_width {
                    text_width = current_line_width;
                }
                current_line_width = 0;
            } else {
                current_line_width = current_line_width + font.char_width();
            }
            i = i + 1;
        }
        let x: usize = match align.0 {
            AlignWidth::Left => x,
            AlignWidth::Centre => if x >= text_width / 2 {
                x - text_width / 2
            } else {
                0
            },
            AlignWidth::Right => if x >= text_width {
                x - text_width
            } else {
                0
            },
        };
        let y: usize = match align.1 {
            AlignHeight::Top => y,
            AlignHeight::Centre => if y >= text_height / 2 {
                y - text_height / 2
            } else {
                0
            },
            AlignHeight::Bottom => if y >= text_height {
                y - text_height
            } else {
                0
            },
        };
        // All of the text lies off the screen.
        if x >= state.framebuffer.width() || y >= state.framebuffer.height() {
            return ;
        }
        self.draw_text(&mut state.framebuffer, font, colour, x, y, bytes);
    }

    /// Draws the bytes of a text with its top left at `(x, y)`.
    pub fn draw_text(
        &self,
        framebuffer: &mut Framebuffer,
        font: &Font,
        colour: BGRA8,
        x: usize,
        y: usize,
        bytes: &[u8],
    )
        requires
            old(framebuffer).wf(),
            font.wf(),
            text_countable(bytes@.len() as int),
            text_fits(font, bytes@),
            x < old(framebuffer).width,
            y < old(framebuffer).height,
        ensures
            final(framebuffer).wf(),
            final(framebuffer).width == old(framebuffer).width,
            final(framebuffer).height == old(framebuffer).height,
            final(framebuffer).pixels@ == text_drawn(
                old(framebuffer).pixels@,
                old(framebuffer).width,
                old(framebuffer).height,
                font,
                bytes@,
                0,
                x as int,
                y as int,
                0,
                0,
                colour,
            ),
    {
        let mut offset_x: usize = 0;
        let mut offset_y: usize = 0;
        let ghost start = framebuffer.pixels@;
        let ghost width = framebuffer.width;
        let ghost height = framebuffer.height;
        let mut i: usize = 0;
        while i < bytes.len()
            invariant
                i <= bytes@.len(),
                text_countable(bytes@.len() as int),
                framebuffer.wf(),
                framebuffer.width == width,
                framebuffer.height == height,
                width == old(framebuffer).width,
                height == old(framebuffer).height,
                start == old(framebuffer).pixels@,
                font.wf(),
                text_fits(font, bytes@),
                x < width,
                y < height,
                offset_x <= i * 0xFFFF,
                offset_y <= i * 0xFFFF,
                text_drawn(
                    framebuffer.pixels@,
                    width,
                    height,
                    font,
                    bytes@,
                    i as int,
                    x as int,
                    y as int,
                    offset_x as int,
                    offset_y as int,
                    colour,
                ) == text_drawn(start, width, height, font, bytes@, 0, x as int, y as int, 0, 0, colour),
            decreases bytes@.len() - i,
        {
            let c: u8 = bytes[i];
            if c == NEWLINE {
                offset_x = 0;
                offset_y = offset_y + font.char_height();
            } else {
                // The rest of the text lies below the screen.
                if y + offset_y >= framebuffer.height() {
                    return ;
                }
                // A character right of the screen is passed over.
                if x + offset_x < framebuffer.width() {
                    self.draw_char(framebuffer, font, colour, c, x + offset_x, y + offset_y);
                }
                offset_x = offset_x + font.char_width();
            }
            i = i + 1;
        }
    }

    /// Draws the character `c` with its top left at `(x, y)`.
    pub fn draw_char(
        &self,
        framebuffer: &mut Framebuffer,
        font: &Font,
        colour: BGRA8,
        c: u8,
        x: usize,
        y: usize,
    )
        requires
            old(framebuffer).wf(),
            font.wf(),
            c < font.char_metadata@.len(),
            x < old(framebuffer).width,
            y < old(framebuffer).height,
        ensures
            final(framebuffer).wf(),
            final(framebuffer).width == old(framebuffer).width,
            final(framebuffer).height == old(framebuffer).height,
            final(framebuffer).pixels@ == char_drawn(
                old(framebuffer).pixels@,
                old(framebuffer).width,
                old(framebuffer).height,
                font.run_lengths@,
                font.char_width,
                font.char_metadata@[c as int].offset as int,
                font.char_metadata@[c as int].offset + font.char_metadata@[c as int].len,
                x as int,
                y as int,
                0,
                0,
                colour,
            ),
    {
        let metadata = font.char_metadata[c as usize];
        let mut offset_x: usize = 0;
        let mut offset_y: usize = 0;
        let ghost start = framebuffer.pixels@;
        let ghost width = framebuffer.width;
        let ghost height = framebuffer.height;
        let ghost first = metadata.offset as int;
        let total: usize = font.run_lengths.len();
        assert(font.char_metadata@[c as int].offset + font.char_metadata@[c as int].len <= total);
        let end: usize = metadata.offset + metadata.len;
        let mut i: usize = metadata.offset;
        while i < end
            invariant
                first <= i <= end <= font.run_lengths@.len(),
                first == font.char_metadata@[c as int].offset,
                end == font.char_metadata@[c as int].offset + font.char_metadata@[c as int].len,
                c < font.char_metadata@.len(),
                framebuffer.wf(),
                framebuffer.width == width,
                framebuffer.height == height,
                width == old(framebuffer).width,
                height == old(framebuffer).height,
                start == old(framebuffer).pixels@,
                font.wf(),
                x < width,
                y + offset_y < height,
                offset_x < font.char_width,
                char_drawn(
                    framebuffer.pixels@,
                    width,
                    height,
                    font.run_lengths@,
                    font.char_width,
                    i as int,
                    end as int,
                    x as int,
                    y as int,
                    offset_x as int,
                    offset_y as int,
                    colour,
                ) == char_drawn(
                    start,
                    width,
                    height,
                    font.run_lengths@,
                    font.char_width,
                    first,
                    end as int,
                    x as int,
                    y as int,
                    0,
                    0,
                    colour,
                ),
            decreases end - i,
        {
            let run_length = font.run_lengths[i];
            assert(run_length.len <= font.char_width);
            if run_length.value() > 0 {
                // Only as much of the run as lies on the screen.
                let len: usize = clipped_len(run_length.len(), framebuffer.width(), x + offset_x);
                if len > 0 {
                    framebuffer.draw_h_line_unchecked(x + offset_x, y + offset_y, len, colour);
                }
            }
            offset_x = offset_x + run_length.len();
            if offset_x >= font.char_width() {
                offset_x = 0;
                offset_y = offset_y + 1;
            }
            // The rest of the character lies below the screen.
            if y + offset_y >= framebuffer.height() {
                return ;
            }
            i = i + 1;
        }
    }
}

} // verus!
