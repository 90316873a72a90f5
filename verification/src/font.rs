//! Bitmap fonts, kept as runs of like pixels.

use vstd::prelude::*;
use crate::bitmap::Bitmap;
use crate::colour::BGRA8;

verus! {

/// Where text lies across from the point it is drawn at.
#[derive(Clone, Copy, Debug, PartialEq, Eq, Structural)]
pub enum AlignWidth {
    Left,
    Centre,
    Right,
}

/// Where text lies up and down from the point it is drawn at.
#[derive(Clone, Copy, Debug, PartialEq, Eq, Structural)]
pub enum AlignHeight {
    Top,
    Centre,
    Bottom,
}

/// Where the runs of one character lie among the runs of a font.
#[derive(Clone, Copy, Debug, PartialEq, Eq, Structural)]
pub struct CharMetadata {
    pub offset: usize,
    pub len: usize,
}

impl CharMetadata {
    pub open spec fn spec_new(offset: usize, len: usize) -> CharMetadata {
        CharMetadata { offset, len }
    }

    #[verifier::when_used_as_spec(spec_new)]
    pub fn new(offset: usize, len: usize) -> (r: CharMetadata)
        ensures
            r == Self::spec_new(offset, len),
    {
        CharMetadata { offset, len }
    }

    pub open spec fn spec_offset(&self) -> usize {
        self.offset
    }

    /// Index of the first run of the character.
    #[verifier::when_used_as_spec(spec_offset)]
    pub fn offset(&self) -> (r: usize)
        ensures
            r == self.offset,
    {
        self.offset
    }

    pub open spec fn spec_len(&self) -> usize {
        self.len
    }

    /// Number of runs of the character.
    #[verifier::when_used_as_spec(spec_len)]
    pub fn len(&self) -> (r: usize)
        ensures
            r == self.len,
    {
        self.len
    }
}

/// A run of `len` pixels of one row that all have the value `value`.
#[derive(Clone, Copy, Debug, PartialEq, Eq, Structural)]
pub struct RunLength {
    pub value: u8,
    pub len: usize,
}

impl RunLength {
    pub open spec fn spec_new(value: u8, len: usize) -> RunLength {
        RunLength { value, len }
    }

    #[verifier::when_used_as_spec(spec_new)]
    pub fn new(value: u8, len: usize) -> (r: RunLength)
        ensures
            r == Self::spec_new(value, len),
    {
        RunLength { value, len }
    }

    pub open spec fn spec_value(&self) -> u8 {
        self.value
    }

    /// Zero for a run of black pixels, one for any other.
    #[verifier::when_used_as_spec(spec_value)]
    pub fn value(&self) -> (r: u8)
        ensures
            r == self.value,
    {
        self.value
    }

    pub open spec fn spec_len(&self) -> usize {
        self.len
    }

    /// Number of pixels of the run.
    #[verifier::when_used_as_spec(spec_len)]
    pub fn len(&self) -> (r: usize)
        ensures
            r == self.len,
    {
        self.len
    }
}

/// Zero for a black pixel, one for any other.
pub open spec fn spec_pixel_value(c: BGRA8) -> u8 {
    if c.r == 0 && c.g == 0 && c.b == 0 {
        0
    } else {
        1
    }
}

/// Zero for a black pixel, one for any other.
#[verifier::when_used_as_spec(spec_pixel_value)]
pub fn pixel_value(c: BGRA8) -> (r: u8)
    ensures
        r == spec_pixel_value(c),
{
    if c.r == 0 && c.g == 0 && c.b == 0 {
        0
    } else {
        1
    }
}

/// The runs closed so far in a row, and the run that is open.
pub struct RowScan {
    pub runs: Seq<RunLength>,
    pub value: u8,
    pub len: usize,
}

/// The scan of the first `n` pixels of the row of `bitmap` that starts at
/// `(x0, y)`. The scan starts with an open run of no black pixels; a pixel
/// of the value of the open run lengthens it, any other closes it and
/// opens a run of one.
pub open spec fn scan_row(bitmap: &Bitmap, x0: int, y: int, n: int) -> RowScan
    decreases n,
{
    if n <= 0 {
        RowScan { runs: Seq::empty(), value: 0, len: 0 }
    } else {
        let prev = scan_row(bitmap, x0, y, n - 1);
        let value = spec_pixel_value(bitmap.pixel_at(x0 + n - 1, y));
        if value == prev.value {
            RowScan { len: (prev.len + 1) as usize, ..prev }
        } else {
            RowScan {
                runs: prev.runs.push(RunLength { value: prev.value, len: prev.len }),
                value,
                len: 1,
            }
        }
    }
}

/// The runs of the row of `width` pixels that starts at `(x0, y)`.
pub open spec fn row_runs(bitmap: &Bitmap, x0: int, y: int, width: int) -> Seq<RunLength> {
    let scan = scan_row(bitmap, x0, y, width);
    scan.runs.push(RunLength { value: scan.value, len: scan.len })
}

/// The runs of the first `n` rows of the character whose top left pixel is
/// `(x0, y0)`.
pub open spec fn char_runs(bitmap: &Bitmap, x0: int, y0: int, width: int, n: int) -> Seq<
    RunLength,
>
    decreases n,
{
    if n <= 0 {
        Seq::empty()
    } else {
        char_runs(bitmap, x0, y0, width, n - 1) + row_runs(bitmap, x0, y0 + n - 1, width)
    }
}

/// How the characters lie in the bitmap of a font.
#[derive(Clone, Copy, Debug, PartialEq, Eq, Structural)]
pub struct Grid {
    pub char_width: usize,
    pub char_height: usize,
    pub char_spacing: usize,
    /// Number of characters in a row of the bitmap.
    pub chars_x: usize,
}

impl Grid {
    /// The runs of character `k`, counted row by row from the top left.
    pub open spec fn runs_of(&self, bitmap: &Bitmap, k: int) -> Seq<RunLength> {
        char_runs(
            bitmap,
            (k % self.chars_x as int) * (self.char_width + self.char_spacing),
            (k / self.chars_x as int) * (self.char_height + self.char_spacing),
            self.char_width as int,
            self.char_height as int,
        )
    }

    /// The runs of the first `n` characters, one character after the
    /// other.
    pub open spec fn runs(&self, bitmap: &Bitmap, n: int) -> Seq<RunLength>
        decreases n,
    {
        if n <= 0 {
            Seq::empty()
        } else {
            self.runs(bitmap, n - 1) + self.runs_of(bitmap, n - 1)
        }
    }

    /// Where the runs of each of the first `n` characters lie.
    pub open spec fn metadata(&self, bitmap: &Bitmap, n: int) -> Seq<CharMetadata>
        decreases n,
    {
        if n <= 0 {
            Seq::empty()
        } else {
            self.metadata(bitmap, n - 1).push(
                CharMetadata {
                    offset: self.runs(bitmap, n - 1).len() as usize,
                    len: self.runs_of(bitmap, n - 1).len() as usize,
                },
            )
        }
    }
}

/// The bitmap holds whole characters of `char_width` by `char_height`
/// pixels with `char_spacing` pixels between them.
pub open spec fn grid_fits(bitmap: &Bitmap, char_width: usize, char_height: usize, char_spacing: usize)
    -> bool {
    &&& bitmap.wf()
    &&& 0 < char_width + char_spacing <= usize::MAX
    &&& 0 < char_height + char_spacing <= usize::MAX
    &&& bitmap.width + char_spacing <= usize::MAX
    &&& bitmap.height + char_spacing <= usize::MAX
    &&& (bitmap.width + char_spacing) % (char_width + char_spacing) == 0
    &&& (bitmap.height + char_spacing) % (char_height + char_spacing) == 0
}

/// The grid of a bitmap that holds whole characters.
pub open spec fn grid_of(bitmap: &Bitmap, char_width: usize, char_height: usize, char_spacing: usize)
    -> Grid {
    Grid {
        char_width,
        char_height,
        char_spacing,
        chars_x: ((bitmap.width + char_spacing) / (char_width + char_spacing)) as usize,
    }
}

/// Number of characters in a bitmap that holds whole characters.
pub open spec fn char_count(bitmap: &Bitmap, char_width: usize, char_height: usize, char_spacing: usize)
    -> int {
    ((bitmap.width + char_spacing) / (char_width + char_spacing)) * ((bitmap.height
        + char_spacing) / (char_height + char_spacing))
}

proof fn lemma_cell_inside(c: int, chars: int, size: int, spacing: int, total: int, i: int)
    requires
        0 <= c < chars,
        0 <= i < size,
        0 <= spacing,
        0 < size + spacing,
        total + spacing == chars * (size + spacing),
    ensures
        0 <= c * (size + spacing),
        c * (size + spacing) + i < total,
{
    assert(0 <= c * (size + spacing)) by (nonlinear_arith)
        requires
            0 <= c,
            0 < size + spacing,
    ;
    assert((c + 1) * (size + spacing) <= chars * (size + spacing)) by (nonlinear_arith)
        requires
            c + 1 <= chars,
            0 < size + spacing,
    ;
    assert((c + 1) * (size + spacing) == c * (size + spacing) + size + spacing)
        by (nonlinear_arith);
}

proof fn lemma_scan_len(bitmap: &Bitmap, x0: int, y: int, n: int)
    requires
        0 <= n,
    ensures
        scan_row(bitmap, x0, y, n).len <= n,
        scan_row(bitmap, x0, y, n).runs.len() <= n,
        forall|i: int|
            0 <= i < scan_row(bitmap, x0, y, n).runs.len() ==> (#[trigger] scan_row(
                bitmap,
                x0,
                y,
                n,
            ).runs[i]).len <= n,
    decreases n,
{
    if n > 0 {
        lemma_scan_len(bitmap, x0, y, n - 1);
    }
}

proof fn lemma_char_runs_short(bitmap: &Bitmap, x0: int, y0: int, width: int, n: int)
    requires
        0 <= width,
    ensures
        forall|i: int|
            0 <= i < char_runs(bitmap, x0, y0, width, n).len() ==> (#[trigger] char_runs(
                bitmap,
                x0,
                y0,
                width,
                n,
            )[i]).len <= width,
    decreases n,
{
    if n > 0 {
        lemma_char_runs_short(bitmap, x0, y0, width, n - 1);
        lemma_scan_len(bitmap, x0, y0 + n - 1, width);
        let prev = char_runs(bitmap, x0, y0, width, n - 1);
        let row = row_runs(bitmap, x0, y0 + n - 1, width);
        let scan = scan_row(bitmap, x0, y0 + n - 1, width);
        assert forall|i: int| 0 <= i < (prev + row).len() implies (#[trigger] (prev + row)[i]).len
            <= width by {
            if i < prev.len() {
                assert((prev + row)[i] == prev[i]);
            } else {
                let j = i - prev.len();
                assert((prev + row)[i] == row[j]);
                if j < scan.runs.len() {
                    assert(row[j] == scan.runs[j]);
                }
            }
        }
    }
}

/// No run of a font is longer than a character is wide, and the runs of
/// every character lie among the runs of the font.
pub proof fn lemma_encoded_font_fits(grid: Grid, bitmap: &Bitmap, n: int)
    requires
        0 <= n,
    ensures
        grid.metadata(bitmap, n).len() == n,
        forall|i: int|
            0 <= i < grid.runs(bitmap, n).len() ==> (#[trigger] grid.runs(bitmap, n)[i]).len
                <= grid.char_width,
        forall|i: int|
            0 <= i < n ==> (#[trigger] grid.metadata(bitmap, n)[i]).offset + grid.metadata(
                bitmap,
                n,
            )[i].len <= grid.runs(bitmap, n).len(),
    decreases n,
{
    if n > 0 {
        lemma_encoded_font_fits(grid, bitmap, n - 1);
        lemma_char_runs_short(
            bitmap,
            ((n - 1) % grid.chars_x as int) * (grid.char_width + grid.char_spacing),
            ((n - 1) / grid.chars_x as int) * (grid.char_height + grid.char_spacing),
            grid.char_width as int,
            grid.char_height as int,
        );
        let prev = grid.runs(bitmap, n - 1);
        let last = grid.runs_of(bitmap, n - 1);
        assert forall|i: int| 0 <= i < (prev + last).len() implies (#[trigger] (prev + last)[i]).len
            <= grid.char_width by {
            if i < prev.len() {
                assert((prev + last)[i] == prev[i]);
            } else {
                assert((prev + last)[i] == last[i - prev.len()]);
            }
        }
        assert forall|i: int| 0 <= i < n implies (#[trigger] grid.metadata(bitmap, n)[i]).offset
            + grid.metadata(bitmap, n)[i].len <= grid.runs(bitmap, n).len() by {
            if i < n - 1 {
                assert(grid.metadata(bitmap, n)[i] == grid.metadata(bitmap, n - 1)[i]);
            }
        }
    }
}

/// A font: the size of its characters and, for each character, the runs of
/// like pixels of its rows.
pub struct Font {
    pub char_width: usize,
    pub char_height: usize,
    pub char_metadata: Vec<CharMetadata>,
    pub run_lengths: Vec<RunLength>,
}

impl Font {
    /// The runs of every character lie among the runs of the font, no run
    /// is longer than a character is wide, and the sizes fit in sixteen
    /// bits.
    pub open spec fn wf(&self) -> bool {
        &&& 0 < self.char_width <= 0xFFFF
        &&& self.char_height <= 0xFFFF
        &&& forall|i: int|
            0 <= i < self.char_metadata@.len() ==> (#[trigger] self.char_metadata@[i]).offset
                + self.char_metadata@[i].len <= self.run_lengths@.len()
        &&& forall|i: int|
            0 <= i < self.run_lengths@.len() ==> (#[trigger] self.run_lengths@[i]).len
                <= self.char_width
    }

    /// The font whose characters lie in `bitmap` in rows, each
    /// `char_width` by `char_height` pixels and `char_spacing` pixels from
    /// the next.
    pub fn from_bitmap(
        bitmap: &Bitmap,
        char_width: usize,
        char_height: usize,
        char_spacing: usize,
    ) -> (font: Font)
        requires
            grid_fits(bitmap, char_width, char_height, char_spacing),
        ensures
            font.char_width == char_width,
            font.char_height == char_height,
            font.char_metadata@ == grid_of(bitmap, char_width, char_height, char_spacing).metadata(
                bitmap,
                char_count(bitmap, char_width, char_height, char_spacing),
            ),
            font.run_lengths@ == grid_of(bitmap, char_width, char_height, char_spacing).runs(
                bitmap,
                char_count(bitmap, char_width, char_height, char_spacing),
            ),
            0 < char_width <= 0xFFFF && char_height <= 0xFFFF ==> font.wf(),
    {
        let (char_metadata, run_lengths) = Self::encode_bitmap_font(
            bitmap,
            char_width,
            char_height,
            char_spacing,
        );
        proof {
            let count = char_count(bitmap, char_width, char_height, char_spacing);
            assert(count >= 0) by (nonlinear_arith)
                requires
                    count == ((bitmap.width + char_spacing) / (char_width + char_spacing)) * ((
                    bitmap.height + char_spacing) / (char_height + char_spacing)),
                    (bitmap.width + char_spacing) / (char_width + char_spacing) >= 0,
                    (bitmap.height + char_spacing) / (char_height + char_spacing) >= 0,
            ;
            lemma_encoded_font_fits(
                grid_of(bitmap, char_width, char_height, char_spacing),
                bitmap,
                count,
            );
        }
        Font { char_width, char_height, char_metadata, run_lengths }
    }

    pub open spec fn spec_char_width(&self) -> usize {
        self.char_width
    }

    #[verifier::when_used_as_spec(spec_char_width)]
    pub fn char_width(&self) -> (r: usize)
        ensures
            r == self.char_width,
    {
        self.char_width
    }

    pub open spec fn spec_char_height(&self) -> usize {
        self.char_height
    }

    #[verifier::when_used_as_spec(spec_char_height)]
    pub fn char_height(&self) -> (r: usize)
        ensures
            r == self.char_height,
    {
        self.char_height
    }

    pub fn char_metadata(&self) -> (r: &[CharMetadata])
        ensures
            r@ == self.char_metadata@,
    {
        self.char_metadata.as_slice()
    }

    pub fn run_lengths(&self) -> (r: &[RunLength])
        ensures
            r@ == self.run_lengths@,
    {
        self.run_lengths.as_slice()
    }

    /// Appends the runs of the row of `width` pixels that starts at
    /// `(x0, y)`.
    fn encode_row(bitmap: &Bitmap, x0: usize, y: usize, width: usize, runs: &mut Vec<RunLength>)
        requires
            bitmap.wf(),
            x0 + width <= bitmap.width,
            y < bitmap.height,
        ensures
            final(runs)@ == old(runs)@ + row_runs(bitmap, x0 as int, y as int, width as int),
    {
        let mut run_value: u8 = 0;
        let mut run_length: usize = 0;
        let ghost before = runs@;
        let mut x: usize = 0;
        while x < width
            invariant
                x <= width,
                bitmap.wf(),
                x0 + width <= bitmap.width,
                y < bitmap.height,
                run_length <= x,
                runs@ == before + scan_row(bitmap, x0 as int, y as int, x as int).runs,
                run_value == scan_row(bitmap, x0 as int, y as int, x as int).value,
                run_length == scan_row(bitmap, x0 as int, y as int, x as int).len,
            decreases width - x,
        {
            let pixel = bitmap.get_pixel(x0 + x, y);
            let value: u8 = pixel_value(pixel);
            let ghost prev = scan_row(bitmap, x0 as int, y as int, x as int);
            if value == run_value {
                run_length = run_length + 1;
            } else {
                runs.push(RunLength::new(run_value, run_length));
                run_value = value;
                run_length = 1;
                assert(runs@ =~= before + prev.runs.push(
                    RunLength { value: prev.value, len: prev.len },
                ));
            }
            x = x + 1;
        }
        // Close the last run.
        runs.push(RunLength::new(run_value, run_length));
        assert(runs@ =~= before + row_runs(bitmap, x0 as int, y as int, width as int));
    }

    /// Appends the runs of the character whose top left pixel is
    /// `(x0, y0)`.
    fn encode_char(
        bitmap: &Bitmap,
        x0: usize,
        y0: usize,
        width: usize,
        height: usize,
        runs: &mut Vec<RunLength>,
    )
        requires
            bitmap.wf(),
            x0 + width <= bitmap.width,
            y0 + height <= bitmap.height,
        ensures
            final(runs)@ == old(runs)@ + char_runs(
                bitmap,
                x0 as int,
                y0 as int,
                width as int,
                height as int,
            ),
    {
        let ghost before = runs@;
        let mut y: usize = 0;
        assert(runs@ =~= before + char_runs(bitmap, x0 as int, y0 as int, width as int, 0));
        while y < height
            invariant
                y <= height,
                bitmap.wf(),
                x0 + width <= bitmap.width,
                y0 + height <= bitmap.height,
                runs@ == before + char_runs(bitmap, x0 as int, y0 as int, width as int, y as int),
            decreases height - y,
        {
            let ghost so_far = runs@;
            Self::encode_row(bitmap, x0, y0 + y, width, runs);
            assert(runs@ =~= before + char_runs(
                bitmap,
                x0 as int,
                y0 as int,
                width as int,
                y + 1,
            ));
            y = y + 1;
        }
    }

    /// Turns the bitmap of a font into runs: for each character, row by
    /// row from the top left of the bitmap, the runs of like pixels of each
    /// of its rows, and where these runs lie among all runs.
    pub fn encode_bitmap_font(
        bitmap: &Bitmap,
        char_width: usize,
        char_height: usize,
        char_spacing: usize,
    ) -> (r: (Vec<CharMetadata>, Vec<RunLength>))
        requires
            grid_fits(bitmap, char_width, char_height, char_spacing),
        ensures
            r.0@ == grid_of(bitmap, char_width, char_height, char_spacing).metadata(
                bitmap,
                char_count(bitmap, char_width, char_height, char_spacing),
            ),
            r.1@ == grid_of(bitmap, char_width, char_height, char_spacing).runs(
                bitmap,
                char_count(bitmap, char_width, char_height, char_spacing),
            ),
    {
        let mut run_lengths: Vec<RunLength> = Vec::new();
        let mut metadata: Vec<CharMetadata> = Vec::new();
        let step_x: usize = char_width + char_spacing;
        let step_y: usize = char_height + char_spacing;
        let chars_x: usize = (bitmap.width() + char_spacing) / step_x;
        let chars_y: usize = (bitmap.height() + char_spacing) / step_y;
        let ghost grid = grid_of(bitmap, char_width, char_height, char_spacing);
        proof {
            vstd::arithmetic::div_mod::lemma_fundamental_div_mod(
                bitmap.width + char_spacing,
                step_x as int,
            );
            vstd::arithmetic::div_mod::lemma_fundamental_div_mod(
                bitmap.height + char_spacing,
                step_y as int,
            );
            assert(step_x * chars_x == chars_x * step_x) by (nonlinear_arith);
            assert(step_y * chars_y == chars_y * step_y) by (nonlinear_arith);
        }
        let mut char_y: usize = 0;
        while char_y < chars_y
            invariant
                char_y <= chars_y,
                grid_fits(bitmap, char_width, char_height, char_spacing),
                step_x == char_width + char_spacing,
                step_y == char_height + char_spacing,
                bitmap.width + char_spacing == chars_x * step_x,
                bitmap.height + char_spacing == chars_y * step_y,
                grid == grid_of(bitmap, char_width, char_height, char_spacing),
                grid.chars_x == chars_x,
                char_y * chars_x >= 0,
                metadata@ == grid.metadata(bitmap, char_y * chars_x),
                run_lengths@ == grid.runs(bitmap, char_y * chars_x),
            decreases chars_y - char_y,
        {
            let mut char_x: usize = 0;
            while char_x < chars_x
                invariant
                    char_x <= chars_x,
                    char_y < chars_y,
                    grid_fits(bitmap, char_width, char_height, char_spacing),
                    step_x == char_width + char_spacing,
                    step_y == char_height + char_spacing,
                    bitmap.width + char_spacing == chars_x * step_x,
                    bitmap.height + char_spacing == chars_y * step_y,
                    grid == grid_of(bitmap, char_width, char_height, char_spacing),
                    grid.chars_x == chars_x,
                    char_y * chars_x >= 0,
                    metadata@ == grid.metadata(bitmap, char_y * chars_x + char_x),
                    run_lengths@ == grid.runs(bitmap, char_y * chars_x + char_x),
                decreases chars_x - char_x,
            {
                let ghost k = char_y * chars_x + char_x;
                proof {
                    if char_width > 0 {
                        lemma_cell_inside(
                            char_x as int,
                            chars_x as int,
                            char_width as int,
                            char_spacing as int,
                            bitmap.width as int,
                            0,
                        );
                        lemma_cell_inside(
                            char_x as int,
                            chars_x as int,
                            char_width as int,
                            char_spacing as int,
                            bitmap.width as int,
                            char_width - 1,
                        );
                    } else {
                        assert(char_x * step_x + step_x <= chars_x * step_x) by (nonlinear_arith)
                            requires
                                char_x + 1 <= chars_x,
                                0 < step_x,
                        ;
                        assert(0 <= char_x * step_x) by (nonlinear_arith)
                            requires
                                0 <= char_x,
                                0 < step_x,
                        ;
                    }
                    if char_height > 0 {
                        lemma_cell_inside(
                            char_y as int,
                            chars_y as int,
                            char_height as int,
                            char_spacing as int,
                            bitmap.height as int,
                            0,
                        );
                        lemma_cell_inside(
                            char_y as int,
                            chars_y as int,
                            char_height as int,
                            char_spacing as int,
                            bitmap.height as int,
                            char_height - 1,
                        );
                    } else {
                        assert(char_y * step_y + step_y <= chars_y * step_y) by (nonlinear_arith)
                            requires
                                char_y + 1 <= chars_y,
                                0 < step_y,
                        ;
                        assert(0 <= char_y * step_y) by (nonlinear_arith)
                            requires
                                0 <= char_y,
                                0 < step_y,
                        ;
                    }
                    vstd::arithmetic::div_mod::lemma_fundamental_div_mod_converse(
                        k,
                        chars_x as int,
                        char_y as int,
                        char_x as int,
                    );
                }
                let x0: usize = char_x * step_x;
                let y0: usize = char_y * step_y;
                let char_run_length_offset: usize = run_lengths.len();
                Self::encode_char(bitmap, x0, y0, char_width, char_height, &mut run_lengths);
                proof {
                    assert(run_lengths@ =~= grid.runs(bitmap, k + 1));
                }
                // For each character, keep where its runs lie.
                metadata.push(
                    CharMetadata {
                        offset: char_run_length_offset,
                        len: run_lengths.len() - char_run_length_offset,
                    },
                );
                proof {
                    assert(metadata@ =~= grid.metadata(bitmap, k + 1));
                }
                char_x = char_x + 1;
            }
            proof {
                assert((char_y + 1) * chars_x == char_y * chars_x + chars_x) by (nonlinear_arith);
            }
            char_y = char_y + 1;
        }
        proof {
            assert(chars_y * chars_x == chars_x * chars_y) by (nonlinear_arith);
        }
        (metadata, run_lengths)
    }
}

} // verus!
