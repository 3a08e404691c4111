//! Colour types, bit depths and the row-size arithmetic built on them.

use vstd::prelude::*;

verus! {

/// Describes the layout of samples in a pixel
#[derive(Debug, Clone, Copy, PartialEq, Eq, Structural)]
pub enum ColorType {
    Grayscale,
    Rgb,
    Indexed,
    GrayscaleAlpha,
    Rgba,
}

/// Bit depth of the png file
#[derive(Debug, Clone, Copy, PartialEq, Eq, Structural)]
pub enum BitDepth {
    One,
    Two,
    Four,
    Eight,
    Sixteen,
}

/// Internal count of bytes per pixel.
/// This is used for filtering which never uses sub-byte units. This essentially reduces the number
/// of possible byte chunk lengths to a very small set of values appropriate to be defined as an
/// enum.
#[derive(Debug, Clone, Copy, PartialEq, Eq, Structural)]
pub enum BytesPerPixel {
    One,
    Two,
    Three,
    Four,
    Six,
    Eight,
}

/// The code of a colour type in the IHDR chunk.
pub open spec fn color_type_code(c: ColorType) -> u8 {
    match c {
        ColorType::Grayscale => 0,
        ColorType::Rgb => 2,
        ColorType::Indexed => 3,
        ColorType::GrayscaleAlpha => 4,
        ColorType::Rgba => 6,
    }
}

/// The number of samples that make up one pixel of a colour type.
pub open spec fn color_samples(c: ColorType) -> u8 {
    match c {
        ColorType::Grayscale | ColorType::Indexed => 1,
        ColorType::Rgb => 3,
        ColorType::GrayscaleAlpha => 2,
        ColorType::Rgba => 4,
    }
}

/// The number of bits in one sample at a bit depth.
pub open spec fn depth_bits(d: BitDepth) -> u8 {
    match d {
        BitDepth::One => 1,
        BitDepth::Two => 2,
        BitDepth::Four => 4,
        BitDepth::Eight => 8,
        BitDepth::Sixteen => 16,
    }
}

/// The byte count that a `BytesPerPixel` stands for.
pub open spec fn bpp_bytes(b: BytesPerPixel) -> usize {
    match b {
        BytesPerPixel::One => 1,
        BytesPerPixel::Two => 2,
        BytesPerPixel::Three => 3,
        BytesPerPixel::Four => 4,
        BytesPerPixel::Six => 6,
        BytesPerPixel::Eight => 8,
    }
}

/// Bits of sample data in a row of `width` pixels.
pub open spec fn row_bits(c: ColorType, d: BitDepth, width: u32) -> int {
    width * color_samples(c) * depth_bits(d)
}

/// Bytes of one raw (filtered) row of `width` pixels: the filter-type byte
/// followed by the sample bits rounded up to whole bytes.
pub open spec fn raw_row_bytes(c: ColorType, d: BitDepth, width: u32) -> int {
    1 + (row_bits(c, d, width) + 7) / 8
}

/// What the unchecked row-length computation needs to run without overflow:
/// the sample count of the row (doubled for 16-bit samples) and the result
/// both fit in a `usize`.
pub open spec fn row_length_computable(c: ColorType, d: BitDepth, width: u32) -> bool {
    &&& width * color_samples(c) * (if d == BitDepth::Sixteen { 2int } else { 1int }) <= usize::MAX
    &&& raw_row_bytes(c, d, width) <= usize::MAX
}

/// Section 11.2.2 of the PNG standard disallows several combinations of bit
/// depth and colour type.
pub open spec fn combination_invalid(c: ColorType, d: BitDepth) -> bool {
    ||| (d == BitDepth::One || d == BitDepth::Two || d == BitDepth::Four)
        && (c == ColorType::Rgb || c == ColorType::GrayscaleAlpha || c == ColorType::Rgba)
    ||| d == BitDepth::Sixteen && c == ColorType::Indexed
}

impl ColorType {
    /// Returns the number of samples used per pixel of `ColorType`
    pub fn samples(self) -> (r: usize)
        ensures
            r == color_samples(self),
    {
        self.samples_u8() as usize
    }

    pub fn samples_u8(self) -> (r: u8)
        ensures
            r == color_samples(self),
            1 <= r <= 4,
    {
        match self {
            ColorType::Grayscale | ColorType::Indexed => 1,
            ColorType::Rgb => 3,
            ColorType::GrayscaleAlpha => 2,
            ColorType::Rgba => 4,
        }
    }

    /// The code of this colour type in the IHDR chunk.
    pub fn into_u8(self) -> (r: u8)
        ensures
            r == color_type_code(self),
    {
        match self {
            ColorType::Grayscale => 0,
            ColorType::Rgb => 2,
            ColorType::Indexed => 3,
            ColorType::GrayscaleAlpha => 4,
            ColorType::Rgba => 6,
        }
    }

    /// u8 -> Self. Temporary solution until Rust provides a canonical one.
    pub fn from_u8(n: u8) -> (r: Option<ColorType>)
        ensures
            r matches Some(c) ==> color_type_code(c) == n,
            forall|c: ColorType| color_type_code(c) == n ==> r == Some(c),
            r is None <==> !(n == 0 || n == 2 || n == 3 || n == 4 || n == 6),
    {
        match n {
            0 => Some(ColorType::Grayscale),
            2 => Some(ColorType::Rgb),
            3 => Some(ColorType::Indexed),
            4 => Some(ColorType::GrayscaleAlpha),
            6 => Some(ColorType::Rgba),
            _ => None,
        }
    }

    /// The length of a raw row of `width` pixels, or `None` where it does not
    /// fit in a `usize`.
    pub fn checked_raw_row_length(self, depth: BitDepth, width: u32) -> (r: Option<usize>)
        ensures
            r == (if raw_row_bytes(self, depth, width) <= usize::MAX {
                Some(raw_row_bytes(self, depth, width) as usize)
            } else {
                None::<usize>
            }),
    {
        let w = u64::from(width);
        let s = u64::from(self.samples_u8());
        let d = u64::from(depth.into_u8());
        // No overflow can occur in 64 bits, we multiply 32-bit with 5 more bits.
        assert(w * s <= 4 * 0xffff_ffff) by (nonlinear_arith)
            requires
                w <= 0xffff_ffff,
                s <= 4,
        ;
        assert(w * s * d <= 64 * 0xffff_ffff) by (nonlinear_arith)
            requires
                w * s <= 4 * 0xffff_ffff,
                d <= 16,
        ;
        let bits = w * s * d;
        usize::try_from(1 + (bits + 7) / 8).ok()
    }

    /// The length of a raw row of `width` pixels, computed in `usize`.
    pub fn raw_row_length_from_width(self, depth: BitDepth, width: u32) -> (r: usize)
        requires
            row_length_computable(self, depth, width),
        ensures
            r == raw_row_bytes(self, depth, width),
    {
        let s = self.samples();
        let w = width as usize;
        assert(w * s <= usize::MAX) by (nonlinear_arith)
            requires
                w * s * (if depth == BitDepth::Sixteen { 2int } else { 1int }) <= usize::MAX,
                w * s >= 0,
        ;
        let samples = w * s;
        assert(row_bits(self, depth, width) == samples * depth_bits(depth));
        match depth {
            BitDepth::Sixteen => {
                assert((samples * 16 + 7) / 8 == samples * 2);
                1 + samples * 2
            },
            BitDepth::Eight => {
                assert((samples * 8 + 7) / 8 == samples);
                1 + samples
            },
            subbyte => {
                let bits = subbyte.into_u8() as usize;
                assert(bits == 1 || bits == 2 || bits == 4);
                let samples_per_byte = 8 / bits;
                let whole = samples / samples_per_byte;
                let fract: usize = if samples % samples_per_byte > 0 { 1 } else { 0 };
                proof {
                    lemma_subbyte_rounding(samples as int, depth_bits(depth) as int);
                }
                1 + whole + fract
            },
        }
    }

    /// Whether the PNG standard forbids this colour type at `bit_depth`.
    pub fn is_combination_invalid(self, bit_depth: BitDepth) -> (r: bool)
        ensures
            r == combination_invalid(self, bit_depth),
            r <==> ((bit_depth == BitDepth::One || bit_depth == BitDepth::Two || bit_depth
                == BitDepth::Four) && (self == ColorType::Rgb || self == ColorType::GrayscaleAlpha
                || self == ColorType::Rgba)) || (bit_depth == BitDepth::Sixteen && self
                == ColorType::Indexed),
            self == ColorType::Rgb && bit_depth == BitDepth::Sixteen ==> !r,
    {
        // Section 11.2.2 of the PNG standard disallows several combinations
        // of bit depth and color type
        ((bit_depth == BitDepth::One || bit_depth == BitDepth::Two || bit_depth == BitDepth::Four)
            && (self == ColorType::Rgb || self == ColorType::GrayscaleAlpha || self
            == ColorType::Rgba)) || (bit_depth == BitDepth::Sixteen && self == ColorType::Indexed)
    }
}

/// For a combination of colour type and bit depth that the standard allows,
/// whenever the checked row length exists (`raw_row_bytes` fits in a `usize`),
/// the unchecked computation can run too, and both give `raw_row_bytes`.
pub proof fn lemma_checked_row_length_covers_unchecked(c: ColorType, d: BitDepth, width: u32)
    requires
        !combination_invalid(c, d),
        raw_row_bytes(c, d, width) <= usize::MAX,
    ensures
        row_length_computable(c, d, width),
{
    let ws: int = width * color_samples(c);
    assert(ws >= 0) by (nonlinear_arith)
        requires
            width >= 0,
            color_samples(c) >= 0,
            ws == width * color_samples(c),
    ;
    assert(row_bits(c, d, width) == ws * depth_bits(d));
    if d == BitDepth::Sixteen {
        assert((ws * 16 + 7) / 8 == ws * 2);
    } else if d == BitDepth::Eight {
        assert((ws * 8 + 7) / 8 == ws);
    } else {
        assert(color_samples(c) == 1);
    }
}

/// A raw row of any 32-bit width is at most `1 + 8 * u32::MAX` bytes long (a
/// width of `u32::MAX` pixels of 16-bit RGBA), so the checked row length
/// never fails where `usize` has 64 bits.
pub proof fn lemma_row_bytes_bound(c: ColorType, d: BitDepth, width: u32)
    ensures
        1 <= raw_row_bytes(c, d, width) <= 1 + 8 * 0xffff_ffffint,
{
    let w = width as int;
    let s = color_samples(c) as int;
    let b = depth_bits(d) as int;
    assert(0 <= w * s * b <= 0xffff_ffff * 64) by (nonlinear_arith)
        requires
            0 <= w <= 0xffff_ffff,
            1 <= s <= 4,
            1 <= b <= 16,
    ;
}

/// The combinations that section 11.2.2 of the PNG standard forbids, listed
/// pair by pair: bit depths 1, 2 and 4 for the multi-sample colour types
/// (RGB, grayscale with alpha, RGBA), and bit depth 16 for indexed colour.
/// Every other pair is allowed: each colour type at depth 8, grayscale at
/// every depth, RGB, grayscale with alpha and RGBA at depth 16, and indexed
/// colour at depths 1, 2 and 4.
pub proof fn lemma_png_forbidden_combinations(c: ColorType, d: BitDepth)
    ensures
        combination_invalid(c, d) <==> {
            ||| (c, d) == (ColorType::Rgb, BitDepth::One)
            ||| (c, d) == (ColorType::Rgb, BitDepth::Two)
            ||| (c, d) == (ColorType::Rgb, BitDepth::Four)
            ||| (c, d) == (ColorType::GrayscaleAlpha, BitDepth::One)
            ||| (c, d) == (ColorType::GrayscaleAlpha, BitDepth::Two)
            ||| (c, d) == (ColorType::GrayscaleAlpha, BitDepth::Four)
            ||| (c, d) == (ColorType::Rgba, BitDepth::One)
            ||| (c, d) == (ColorType::Rgba, BitDepth::Two)
            ||| (c, d) == (ColorType::Rgba, BitDepth::Four)
            ||| (c, d) == (ColorType::Indexed, BitDepth::Sixteen)
        },
        !combination_invalid(c, BitDepth::Eight),
        !combination_invalid(ColorType::Grayscale, d),
        c != ColorType::Indexed ==> !combination_invalid(c, BitDepth::Sixteen),
        d != BitDepth::Sixteen ==> !combination_invalid(ColorType::Indexed, d),
{
}

/// The samples of each colour type (PNG table 11.1): one for grayscale and
/// indexed colour, two for grayscale with alpha, three for RGB, four for RGBA;
/// the bits of each bit depth; and the byte count that each `BytesPerPixel`
/// names.
pub proof fn lemma_png_sample_layout()
    ensures
        color_samples(ColorType::Grayscale) == 1,
        color_samples(ColorType::Indexed) == 1,
        color_samples(ColorType::GrayscaleAlpha) == 2,
        color_samples(ColorType::Rgb) == 3,
        color_samples(ColorType::Rgba) == 4,
        depth_bits(BitDepth::One) == 1,
        depth_bits(BitDepth::Two) == 2,
        depth_bits(BitDepth::Four) == 4,
        depth_bits(BitDepth::Eight) == 8,
        depth_bits(BitDepth::Sixteen) == 16,
        bpp_bytes(BytesPerPixel::One) == 1,
        bpp_bytes(BytesPerPixel::Two) == 2,
        bpp_bytes(BytesPerPixel::Three) == 3,
        bpp_bytes(BytesPerPixel::Four) == 4,
        bpp_bytes(BytesPerPixel::Six) == 6,
        bpp_bytes(BytesPerPixel::Eight) == 8,
        forall|a: BytesPerPixel, b: BytesPerPixel| bpp_bytes(a) == bpp_bytes(b) ==> a == b,
{
}

/// The code of each colour type in the IHDR chunk, as the PNG standard
/// assigns them; no two colour types share a code.
pub proof fn lemma_png_color_type_codes()
    ensures
        color_type_code(ColorType::Grayscale) == 0,
        color_type_code(ColorType::Rgb) == 2,
        color_type_code(ColorType::Indexed) == 3,
        color_type_code(ColorType::GrayscaleAlpha) == 4,
        color_type_code(ColorType::Rgba) == 6,
        forall|a: ColorType, b: ColorType| color_type_code(a) == color_type_code(b) ==> a == b,
        forall|a: BitDepth, b: BitDepth| depth_bits(a) == depth_bits(b) ==> a == b,
{
}

/// Counting whole bytes of `8 / d` samples each, plus one for a partial byte,
/// rounds `samples * d` bits up to whole bytes.
proof fn lemma_subbyte_rounding(samples: int, d: int)
    requires
        samples >= 0,
        d == 1 || d == 2 || d == 4,
    ensures
        samples / (8int / d) + (if samples % (8int / d) > 0 { 1int } else { 0int })
            == (samples * d + 7) / 8,
{
    if d == 1 {
        assert(8int / d == 8);
    } else if d == 2 {
        assert(8int / d == 4);
    } else {
        assert(8int / d == 2);
    }
}

impl BitDepth {
    /// u8 -> Self. Temporary solution until Rust provides a canonical one.
    pub fn from_u8(n: u8) -> (r: Option<BitDepth>)
        ensures
            r matches Some(d) ==> depth_bits(d) == n,
            forall|d: BitDepth| depth_bits(d) == n ==> r == Some(d),
            r is None <==> !(n == 1 || n == 2 || n == 4 || n == 8 || n == 16),
    {
        match n {
            1 => Some(BitDepth::One),
            2 => Some(BitDepth::Two),
            4 => Some(BitDepth::Four),
            8 => Some(BitDepth::Eight),
            16 => Some(BitDepth::Sixteen),
            _ => None,
        }
    }

    /// The number of bits per sample.
    pub fn into_u8(self) -> (r: u8)
        ensures
            r == depth_bits(self),
    {
        match self {
            BitDepth::One => 1,
            BitDepth::Two => 2,
            BitDepth::Four => 4,
            BitDepth::Eight => 8,
            BitDepth::Sixteen => 16,
        }
    }
}

impl BytesPerPixel {
    /// The number of bytes.
    pub fn into_usize(self) -> (r: usize)
        ensures
            r == bpp_bytes(self),
            self == BytesPerPixel::One ==> r == 1,
            self == BytesPerPixel::Two ==> r == 2,
            self == BytesPerPixel::Three ==> r == 3,
            self == BytesPerPixel::Four ==> r == 4,
            self == BytesPerPixel::Six ==> r == 6,
            self == BytesPerPixel::Eight ==> r == 8,
    {
        match self {
            BytesPerPixel::One => 1,
            BytesPerPixel::Two => 2,
            BytesPerPixel::Three => 3,
            BytesPerPixel::Four => 4,
            BytesPerPixel::Six => 6,
            BytesPerPixel::Eight => 8,
        }
    }
}

} // verus!
