//! Decoded images.

use vstd::prelude::*;
use crate::colour::BGRA8;

verus! {

/// A rectangle of pixels stored row by row.
#[derive(Debug)]
pub struct Bitmap {
    pub width: usize,
    pub height: usize,
    pub pixels: Vec<BGRA8>,
}

impl Bitmap {
    /// The pixel array holds exactly one pixel per position.
    pub open spec fn wf(&self) -> bool {
        self.pixels@.len() == self.width * self.height
    }

    /// The pixel at column `x` of row `y`.
    pub open spec fn pixel_at(&self, x: int, y: int) -> BGRA8 {
        self.pixels@[y * self.width as int + x]
    }

    pub fn new(width: usize, height: usize, pixels: Vec<BGRA8>) -> (b: Bitmap)
        ensures
            b.width == width,
            b.height == height,
            b.pixels == pixels,
    {
        Bitmap { width, height, pixels }
    }

    pub open spec fn spec_width(&self) -> usize {
        self.width
    }

    #[verifier::when_used_as_spec(spec_width)]
    pub fn width(&self) -> (w: usize)
        ensures
            w == self.width,
    {
        self.width
    }

    pub open spec fn spec_height(&self) -> usize {
        self.height
    }

    #[verifier::when_used_as_spec(spec_height)]
    pub fn height(&self) -> (h: usize)
        ensures
            h == self.height,
    {
        self.height
    }

    pub fn pixels(&self) -> (p: &[BGRA8])
        ensures
            p@ == self.pixels@,
    {
        self.pixels.as_slice()
    }

    pub fn get_pixel(&self, x: usize, y: usize) -> (c: BGRA8)
        requires
            self.wf(),
            x < self.width,
            y < self.height,
        ensures
            c == self.pixel_at(x as int, y as int),
    {
        let len: usize = self.pixels.len();
        proof {
            lemma_cell_index(x as int, y as int, self.width as int, self.height as int);
        }
        self.pixels[y * self.width + x]
    }
}

/// A cell inside a `w` by `h` grid has a row-major index inside `w * h`.
pub proof fn lemma_cell_index(x: int, y: int, w: int, h: int)
    requires
        0 <= x < w,
        0 <= y < h,
    ensures
        0 <= y * w <= y * w + x < w * h,
        y * w + x == x + y * w,
{
    assert(0 <= y * w) by (nonlinear_arith)
        requires
            0 <= y,
            0 <= w,
    ;
    assert(y * w + w <= h * w) by (nonlinear_arith)
        requires
            y + 1 <= h,
            0 <= w,
    ;
    assert(h * w == w * h) by (nonlinear_arith);
}

/// Two cells of a grid with the same row-major index are the same cell.
pub proof fn lemma_cell_index_injective(x1: int, y1: int, x2: int, y2: int, w: int)
    requires
        0 <= x1 < w,
        0 <= x2 < w,
        0 <= y1,
        0 <= y2,
        y1 * w + x1 == y2 * w + x2,
    ensures
        x1 == x2,
        y1 == y2,
{
    if y1 < y2 {
        assert(y1 * w + w <= y2 * w) by (nonlinear_arith)
            requires
                y1 + 1 <= y2,
                0 <= w,
        ;
    } else if y2 < y1 {
        assert(y2 * w + w <= y1 * w) by (nonlinear_arith)
            requires
                y2 + 1 <= y1,
                0 <= w,
        ;
    }
}

/// Code of the colour type of a frame with red, green, blue and alpha.
pub const COLOUR_RGBA: u8 = 6;

/// Code of the bit depth of a frame with eight bits a channel.
pub const DEPTH_EIGHT: u8 = 8;

/// One decoded frame of an image file: its size, the codes of its bit
/// depth and colour type, and its bytes row by row.
pub struct DecodedFrame {
    pub width: u32,
    pub height: u32,
    pub bit_depth: u8,
    pub color_type: u8,
    pub data: Vec<u8>,
}

/// Why the bytes of an image file did not become a bitmap.
#[derive(Clone, Copy, Debug, PartialEq, Eq, Structural)]
pub enum BitmapError {
    /// The decoder failed on the header.
    ReadInfo,
    /// The decoder failed on the pixels.
    ReadFrame,
    /// The frame does not have eight bits a channel.
    BitDepth,
    /// The frame does not have red, green, blue and alpha.
    ColourType,
    /// The frame holds fewer bytes than its size asks for.
    Truncated,
}

impl BitmapError {
    /// The error in words.
    pub fn message(&self) -> (r: &'static str)
        ensures
            r@ == match *self {
                BitmapError::ReadInfo => "Failed to read info"@,
                BitmapError::ReadFrame => "Failed to read frame"@,
                BitmapError::BitDepth => "Unsupported bit depth"@,
                BitmapError::ColourType => "Unsupported colour type"@,
                BitmapError::Truncated => "Frame is cut short"@,
            },
    {
        match *self {
            BitmapError::ReadInfo => "Failed to read info",
            BitmapError::ReadFrame => "Failed to read frame",
            BitmapError::BitDepth => "Unsupported bit depth",
            BitmapError::ColourType => "Unsupported colour type",
            BitmapError::Truncated => "Frame is cut short",
        }
    }
}

/// What the PNG decoder makes of the bytes of a file when it is asked for
/// the first frame with an alpha channel added and sixteen-bit samples cut
/// to eight bits: nothing, if it fails on the header; else nothing, if it
/// fails on the pixels; else the width, the height, the code of the bit
/// depth, the code of the colour type and the bytes of the frame.
pub uninterp spec fn png_frame(bytes: Seq<u8>) -> Option<Option<(u32, u32, u8, u8, Seq<u8>)>>;

/// Decodes the first frame of a PNG file with `png::Decoder`: the decoder
/// is made over the bytes, told to add an alpha channel and to cut
/// sixteen-bit samples to eight bits, and asked for the header
/// (`read_info`) and then for the frame (`next_frame`) into a buffer of
/// the size it names (`output_buffer_size`). The contract claims only that
/// what comes back is what the decoder makes of these bytes.
#[verifier::external_body]
fn decode_png(bytes: &[u8]) -> (r: Option<Option<DecodedFrame>>)
    ensures
        match r {
            None => png_frame(bytes@) is None,
            Some(None) => png_frame(bytes@) == Some(None::<(u32, u32, u8, u8, Seq<u8>)>),
            Some(Some(f)) => png_frame(bytes@) == Some(
                Some((f.width, f.height, f.bit_depth, f.color_type, f.data@)),
            ),
        },
{
    let mut decoder = png::Decoder::new(bytes);
    decoder.set_transformations(png::Transformations::ALPHA | png::Transformations::STRIP_16);
    let mut reader = decoder.read_info().ok()?;
    let mut data = vec![0; reader.output_buffer_size()];
    let info = match reader.next_frame(&mut data) {
        Ok(info) => info,
        Err(_) => return Some(None),
    };
    Some(Some(DecodedFrame {
        width: info.width,
        height: info.height,
        bit_depth: info.bit_depth as u8,
        color_type: info.color_type as u8,
        data,
    }))
}

/// The pixels of a frame of red, green, blue and alpha bytes: pixel `i`
/// has the four bytes from byte `4 * i` on.
pub open spec fn pixels_of_rgba(data: Seq<u8>, count: int) -> Seq<BGRA8> {
    Seq::new(
        count as nat,
        |i: int| BGRA8 { r: data[4 * i], g: data[4 * i + 1], b: data[4 * i + 2], a: data[4 * i + 3] },
    )
}

/// What becomes of a decoded frame: a bitmap of its size and pixels, if it
/// has eight bits a channel, red, green, blue and alpha, and all its
/// bytes.
pub open spec fn bitmap_of_frame(
    width: u32,
    height: u32,
    bit_depth: u8,
    color_type: u8,
    data: Seq<u8>,
) -> Result<(usize, usize, Seq<BGRA8>), BitmapError> {
    if bit_depth != DEPTH_EIGHT {
        Err(BitmapError::BitDepth)
    } else if color_type != COLOUR_RGBA {
        Err(BitmapError::ColourType)
    } else if 4 * (width as int * height as int) > data.len() {
        Err(BitmapError::Truncated)
    } else {
        Ok((width as usize, height as usize, pixels_of_rgba(data, width as int * height as int)))
    }
}

/// What becomes of the bytes of a PNG file, by what the decoder makes of
/// them.
pub open spec fn bitmap_of_png(bytes: Seq<u8>) -> Result<(usize, usize, Seq<BGRA8>), BitmapError> {
    match png_frame(bytes) {
        None => Err(BitmapError::ReadInfo),
        Some(None) => Err(BitmapError::ReadFrame),
        Some(Some(f)) => bitmap_of_frame(f.0, f.1, f.2, f.3, f.4),
    }
}

impl Bitmap {
    /// The bitmap of a decoded frame. A frame that does not have eight
    /// bits a channel, or not red, green, blue and alpha, or fewer bytes
    /// than its size asks for, is refused.
    pub fn from_frame(frame: DecodedFrame) -> (r: Result<Bitmap, BitmapError>)
        ensures
            match r {
                Ok(b) => b.wf() && bitmap_of_frame(
                    frame.width,
                    frame.height,
                    frame.bit_depth,
                    frame.color_type,
                    frame.data@,
                ) == Ok::<(usize, usize, Seq<BGRA8>), BitmapError>((b.width, b.height, b.pixels@)),
                Err(e) => bitmap_of_frame(
                    frame.width,
                    frame.height,
                    frame.bit_depth,
                    frame.color_type,
                    frame.data@,
                ) == Err::<(usize, usize, Seq<BGRA8>), BitmapError>(e),
            },
    {
        if frame.bit_depth != DEPTH_EIGHT {
            return Err(BitmapError::BitDepth);
        }
        if frame.color_type != COLOUR_RGBA {
            return Err(BitmapError::ColourType);
        }
        proof {
            assert(0 <= frame.width as int * frame.height as int <= 0xFFFF_FFFF * 0xFFFF_FFFF)
                by (nonlinear_arith)
                requires
                    0 <= frame.width as int <= 0xFFFF_FFFF,
                    0 <= frame.height as int <= 0xFFFF_FFFF,
            ;
        }
        let count: u64 = (frame.width as u64) * (frame.height as u64);
        let len: usize = frame.data.len();
        if count > (len as u64) / 4 {
            return Err(BitmapError::Truncated);
        }
        let count: usize = count as usize;
        let mut pixels: Vec<BGRA8> = Vec::new();
        let mut i: usize = 0;
        while i < count
            invariant
                i <= count,
                len == frame.data@.len(),
                4 * count <= len,
                pixels@.len() == i,
                forall|k: int|
                    0 <= k < i ==> pixels@[k] == pixels_of_rgba(frame.data@, count as int)[k],
            decreases count - i,
        {
            // The file has red first, the bitmap blue.
            pixels.push(
                BGRA8::new(
                    frame.data[4 * i],
                    frame.data[4 * i + 1],
                    frame.data[4 * i + 2],
                    frame.data[4 * i + 3],
                ),
            );
            i = i + 1;
        }
        proof {
            assert(pixels@ =~= pixels_of_rgba(frame.data@, count as int));
        }
        Ok(Bitmap::new(frame.width as usize, frame.height as usize, pixels))
    }

    /// The bitmap in the bytes of a PNG file.
    pub fn from_png_bytes(bytes: &[u8]) -> (r: Result<Bitmap, BitmapError>)
        ensures
            match r {
                Ok(b) => b.wf() && bitmap_of_png(bytes@) == Ok::<
                    (usize, usize, Seq<BGRA8>),
                    BitmapError,
                >((b.width, b.height, b.pixels@)),
                Err(e) => bitmap_of_png(bytes@) == Err::<(usize, usize, Seq<BGRA8>), BitmapError>(
                    e,
                ),
            },
    {
        match decode_png(bytes) {
            None => Err(BitmapError::ReadInfo),
            Some(None) => Err(BitmapError::ReadFrame),
            Some(Some(frame)) => Self::from_frame(frame),
        }
    }
}

} // verus!
