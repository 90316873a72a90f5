//! Eight-bit colours in the byte orders the framebuffer and image files use.

use vstd::prelude::*;

verus! {

/// One channel of `fore` laid over `back` with coverage `alpha` out of 255,
/// scaled back by 256.
pub open spec fn blend_channel(fore: u8, back: u8, alpha: u8) -> u8 {
    ((fore as int * alpha as int + back as int * (255 - alpha as int)) / 256) as u8
}

/// One channel scaled by `k / 256`.
pub open spec fn darken_channel(c: u8, k: u8) -> u8 {
    ((c as int * k as int) / 256) as u8
}

/// One channel scaled by `l / 256`, raised to at least 255 and cut to its
/// low eight bits.
pub open spec fn lighten_channel(c: u8, l: usize) -> u8 {
    let scaled = (c as int * l as int) / 256;
    if scaled < 255 {
        255u8
    } else {
        (scaled % 256) as u8
    }
}

proof fn lemma_channel_product(a: u8, b: u8)
    ensures
        0 <= a as int * b as int <= 65025,
{
    assert(0 <= a as int * b as int <= 65025) by (nonlinear_arith)
        requires
            0 <= a as int <= 255,
            0 <= b as int <= 255,
    ;
}

fn blend_byte(fore: u8, back: u8, alpha: u8) -> (r: u8)
    ensures
        r == blend_channel(fore, back, alpha),
{
    proof {
        lemma_channel_product(fore, alpha);
        lemma_channel_product(back, (255 - alpha) as u8);
        assert(fore as int * alpha as int + back as int * (255 - alpha as int) <= 65025)
            by (nonlinear_arith)
            requires
                0 <= fore as int <= 255,
                0 <= back as int <= 255,
                0 <= alpha as int <= 255,
        ;
    }
    let beta: u32 = 255 - alpha as u32;
    let sum: u32 = (fore as u32) * (alpha as u32) + (back as u32) * beta;
    (sum / 256) as u8
}

fn darken_byte(c: u8, k: u8) -> (r: u8)
    ensures
        r == darken_channel(c, k),
{
    proof {
        lemma_channel_product(c, k);
    }
    let p: u32 = (c as u32) * (k as u32);
    (p / 256) as u8
}

fn lighten_byte(c: u8, l: usize) -> (r: u8)
    requires
        c as int * l as int <= usize::MAX,
    ensures
        r == lighten_channel(c, l),
{
    proof {
        assert(0 <= c as int * l as int) by (nonlinear_arith)
            requires
                0 <= c as int,
                0 <= l as int,
        ;
    }
    let scaled: usize = ((c as usize) * l) / 256;
    if scaled < 255 {
        255
    } else {
        (scaled % 256) as u8
    }
}

/// A colour stored blue first, with an alpha channel.
#[derive(Clone, Copy, Debug, PartialEq, Eq, Structural)]
pub struct BGRA8 {
    pub b: u8,
    pub g: u8,
    pub r: u8,
    pub a: u8,
}

impl BGRA8 {
    pub open spec fn spec_new(red: u8, green: u8, blue: u8, alpha: u8) -> BGRA8 {
        BGRA8 { b: blue, g: green, r: red, a: alpha }
    }

    #[verifier::when_used_as_spec(spec_new)]
    pub fn new(red: u8, green: u8, blue: u8, alpha: u8) -> (c: BGRA8)
        ensures
            c == Self::spec_new(red, green, blue, alpha),
    {
        BGRA8 { b: blue, g: green, r: red, a: alpha }
    }

    pub open spec fn spec_blend(self, other: BGRA8) -> BGRA8 {
        BGRA8 {
            b: blend_channel(self.b, other.b, self.a),
            g: blend_channel(self.g, other.g, self.a),
            r: blend_channel(self.r, other.r, self.a),
            a: 0xFF,
        }
    }

    /// Lays this colour over `other`, weighting this colour by its own alpha
    /// and `other` by the rest. The result is opaque.
    #[verifier::when_used_as_spec(spec_blend)]
    pub fn blend(self, other: BGRA8) -> (c: BGRA8)
        ensures
            c == self.spec_blend(other),
    {
        BGRA8 {
            b: blend_byte(self.b, other.b, self.a),
            g: blend_byte(self.g, other.g, self.a),
            r: blend_byte(self.r, other.r, self.a),
            a: 0xFF,
        }
    }

    pub open spec fn spec_darken(self, d: u8) -> BGRA8 {
        BGRA8 {
            b: darken_channel(self.b, d),
            g: darken_channel(self.g, d),
            r: darken_channel(self.r, d),
            a: self.a,
        }
    }

    /// Scales the three colour channels by `d / 256`; alpha is kept.
    #[verifier::when_used_as_spec(spec_darken)]
    pub fn darken(self, d: u8) -> (c: BGRA8)
        ensures
            c == self.spec_darken(d),
    {
        BGRA8 {
            b: darken_byte(self.b, d),
            g: darken_byte(self.g, d),
            r: darken_byte(self.r, d),
            a: self.a,
        }
    }

    pub open spec fn spec_opaque(self) -> BGRA8 {
        BGRA8 { a: 0xFF, ..self }
    }

    /// The colour with full alpha.
    #[verifier::when_used_as_spec(spec_opaque)]
    pub fn opaque(self) -> (c: BGRA8)
        ensures
            c == self.spec_opaque(),
    {
        BGRA8 { a: 0xFF, ..self }
    }

    pub open spec fn spec_lighten(self, l: usize) -> BGRA8 {
        BGRA8 {
            b: lighten_channel(self.b, l),
            g: lighten_channel(self.g, l),
            r: lighten_channel(self.r, l),
            a: self.a,
        }
    }

    /// Scales the three colour channels by `l / 256`, where each scaled
    /// channel is raised to at least 255 and then cut to eight bits; alpha is
    /// kept. The product of each channel and `l` must fit the machine word.
    #[verifier::when_used_as_spec(spec_lighten)]
    pub fn lighten(self, l: usize) -> (c: BGRA8)
        requires
            self.b as int * l as int <= usize::MAX,
            self.g as int * l as int <= usize::MAX,
            self.r as int * l as int <= usize::MAX,
        ensures
            c == self.spec_lighten(l),
    {
        BGRA8 {
            b: lighten_byte(self.b, l),
            g: lighten_byte(self.g, l),
            r: lighten_byte(self.r, l),
            a: self.a,
        }
    }

    pub open spec fn spec_as_u32(self) -> u32 {
        (self.b as int + self.g as int * 0x100 + self.r as int * 0x1_0000 + self.a as int
            * 0x100_0000) as u32
    }

    /// The four bytes as one word, blue in the lowest byte.
    #[verifier::when_used_as_spec(spec_as_u32)]
    pub fn as_u32(self) -> (w: u32)
        ensures
            w == self.spec_as_u32(),
    {
        (self.b as u32) + (self.g as u32) * 0x100 + (self.r as u32) * 0x1_0000 + (self.a as u32)
            * 0x100_0000
    }

    pub open spec fn spec_from_rgb(rgb: RGB8) -> BGRA8 {
        BGRA8 { b: rgb.b, g: rgb.g, r: rgb.r, a: 0xFF }
    }

    /// The opaque colour with the channels of `rgb`.
    #[verifier::when_used_as_spec(spec_from_rgb)]
    pub fn from_rgb(rgb: RGB8) -> (c: BGRA8)
        ensures
            c == Self::spec_from_rgb(rgb),
    {
        BGRA8 { b: rgb.b, g: rgb.g, r: rgb.r, a: 0xFF }
    }

    pub open spec fn spec_clear() -> BGRA8 {
        BGRA8 { b: 0, g: 0, r: 0, a: 0 }
    }

    /// The transparent colour with every channel zero.
    #[verifier::when_used_as_spec(spec_clear)]
    pub fn clear() -> (c: BGRA8)
        ensures
            c == Self::spec_clear(),
    {
        BGRA8 { b: 0, g: 0, r: 0, a: 0 }
    }

    pub fn black() -> (c: BGRA8)
        ensures
            c == BGRA8::new(0x00, 0x00, 0x00, 0xFF),
    {
        BGRA8::new(0x00, 0x00, 0x00, 0xFF)
    }

    pub fn white() -> (c: BGRA8)
        ensures
            c == BGRA8::new(0xFF, 0xFF, 0xFF, 0xFF),
    {
        BGRA8::new(0xFF, 0xFF, 0xFF, 0xFF)
    }

    pub fn grey() -> (c: BGRA8)
        ensures
            c == BGRA8::new(0x80, 0x80, 0x80, 0xFF),
    {
        BGRA8::new(0x80, 0x80, 0x80, 0xFF)
    }

    pub fn red() -> (c: BGRA8)
        ensures
            c == BGRA8::new(0xFF, 0x00, 0x00, 0xFF),
    {
        BGRA8::new(0xFF, 0x00, 0x00, 0xFF)
    }

    pub fn orange() -> (c: BGRA8)
        ensures
            c == BGRA8::new(0xFF, 0xA5, 0x00, 0xFF),
    {
        BGRA8::new(0xFF, 0xA5, 0x00, 0xFF)
    }

    pub fn yellow() -> (c: BGRA8)
        ensures
            c == BGRA8::new(0xFF, 0xFF, 0x00, 0xFF),
    {
        BGRA8::new(0xFF, 0xFF, 0x00, 0xFF)
    }

    pub fn green() -> (c: BGRA8)
        ensures
            c == BGRA8::new(0x00, 0xFF, 0x00, 0xFF),
    {
        BGRA8::new(0x00, 0xFF, 0x00, 0xFF)
    }

    pub fn blue() -> (c: BGRA8)
        ensures
            c == BGRA8::new(0x00, 0x00, 0xFF, 0xFF),
    {
        BGRA8::new(0x00, 0x00, 0xFF, 0xFF)
    }

    pub fn cyan() -> (c: BGRA8)
        ensures
            c == BGRA8::new(0x00, 0xFF, 0xFF, 0xFF),
    {
        BGRA8::new(0x00, 0xFF, 0xFF, 0xFF)
    }

    pub fn purple() -> (c: BGRA8)
        ensures
            c == BGRA8::new(0x80, 0x00, 0x80, 0xFF),
    {
        BGRA8::new(0x80, 0x00, 0x80, 0xFF)
    }

    pub fn magenta() -> (c: BGRA8)
        ensures
            c == BGRA8::new(0xFF, 0x00, 0xFF, 0xFF),
    {
        BGRA8::new(0xFF, 0x00, 0xFF, 0xFF)
    }
}

/// A colour stored red first, without alpha.
#[derive(Clone, Copy, Debug, PartialEq, Eq, Structural)]
pub struct RGB8 {
    pub r: u8,
    pub g: u8,
    pub b: u8,
}

impl RGB8 {
    pub open spec fn spec_new(red: u8, green: u8, blue: u8) -> RGB8 {
        RGB8 { r: red, g: green, b: blue }
    }

    #[verifier::when_used_as_spec(spec_new)]
    pub fn new(red: u8, green: u8, blue: u8) -> (c: RGB8)
        ensures
            c == Self::spec_new(red, green, blue),
    {
        RGB8 { r: red, g: green, b: blue }
    }

    pub open spec fn spec_blend(self, other: RGB8, alpha: u8) -> RGB8 {
        RGB8 {
            r: blend_channel(self.r, other.r, alpha),
            g: blend_channel(self.g, other.g, alpha),
            b: blend_channel(self.b, other.b, alpha),
        }
    }

    /// Lays this colour over `other`, weighting this colour by `alpha` and
    /// `other` by the rest.
    #[verifier::when_used_as_spec(spec_blend)]
    pub fn blend(self, other: RGB8, alpha: u8) -> (c: RGB8)
        ensures
            c == self.spec_blend(other, alpha),
    {
        RGB8 {
            r: blend_byte(self.r, other.r, alpha),
            g: blend_byte(self.g, other.g, alpha),
            b: blend_byte(self.b, other.b, alpha),
        }
    }

    pub open spec fn spec_as_u32(self) -> u32 {
        (self.r as int + self.g as int * 0x100 + self.b as int * 0x1_0000 + 0xFF00_0000) as u32
    }

    /// The three bytes and a full fourth byte as one word, red in the lowest
    /// byte.
    #[verifier::when_used_as_spec(spec_as_u32)]
    pub fn as_u32(self) -> (w: u32)
        ensures
            w == self.spec_as_u32(),
    {
        (self.r as u32) + (self.g as u32) * 0x100 + (self.b as u32) * 0x1_0000 + 0xFF00_0000
    }
}

} // verus!
