//! Image information: dimensions, colour layout, ancillary chunk data and the
//! sizes of pixels, rows and whole images that follow from them.

use vstd::prelude::*;
use crate::animation::{AnimationControl, FrameControl};
use crate::color::{
    bpp_bytes, color_samples, depth_bits, raw_row_bytes, row_length_computable, BitDepth,
    BytesPerPixel, ColorType,
};
use crate::compression::Compression;
use crate::filter::FilterType;

verus! {

/// Physical unit of the pixel dimensions
#[derive(Debug, Clone, Copy, PartialEq, Eq, Structural)]
pub enum Unit {
    Unspecified,
    Meter,
}

/// The code of a unit in the pHYs chunk.
pub open spec fn unit_code(u: Unit) -> u8 {
    match u {
        Unit::Unspecified => 0,
        Unit::Meter => 1,
    }
}

/// The pHYs codes of the units: 0 for an unspecified unit, 1 for the metre.
pub proof fn lemma_png_unit_codes()
    ensures
        unit_code(Unit::Unspecified) == 0,
        unit_code(Unit::Meter) == 1,
{
}

impl Unit {
    /// u8 -> Self. Temporary solution until Rust provides a canonical one.
    pub fn from_u8(n: u8) -> (r: Option<Unit>)
        ensures
            r matches Some(u) ==> unit_code(u) == n,
            forall|u: Unit| unit_code(u) == n ==> r == Some(u),
            r is None <==> n > 1,
    {
        match n {
            0 => Some(Unit::Unspecified),
            1 => Some(Unit::Meter),
            _ => None,
        }
    }

    /// The code of this unit in the pHYs chunk.
    pub fn into_u8(self) -> (r: u8)
        ensures
            r == unit_code(self),
    {
        match self {
            Unit::Unspecified => 0,
            Unit::Meter => 1,
        }
    }
}

/// Pixel dimensions information
#[derive(Clone, Copy, Debug)]
pub struct PixelDimensions {
    /// Pixels per unit, X axis
    pub xppu: u32,
    /// Pixels per unit, Y axis
    pub yppu: u32,
    /// Either *Meter* or *Unspecified*
    pub unit: Unit,
}

/// An unsigned integer scaled version of a floating point value,
/// equivalent to an integer quotient with fixed denominator (100_000)).
#[derive(Clone, Copy, Debug, PartialEq, Eq, Structural)]
pub struct ScaledFloat(u32);

impl ScaledFloat {
    /// The encoded value: the number scaled by 100_000.
    pub closed spec fn scaled(self) -> u32 {
        self.0
    }

    /// Fully accurate construction from a value scaled as per specification.
    pub fn from_scaled(val: u32) -> (r: Self)
        ensures
            r.scaled() == val,
    {
        ScaledFloat(val)
    }

    /// Get the accurate encoded value.
    pub fn into_scaled(self) -> (r: u32)
        ensures
            r == self.scaled(),
    {
        self.0
    }

    /// Two scaled floats are the same value exactly when their encoded values
    /// are equal, so `from_scaled(s.into_scaled()) == s`.
    pub proof fn lemma_scaled_determines(a: ScaledFloat, b: ScaledFloat)
        ensures
            a.scaled() == b.scaled() <==> a == b,
    {
    }
}

/// Chromaticities of the color space primaries
#[derive(Clone, Copy, Debug, PartialEq, Eq)]
pub struct SourceChromaticities {
    pub white: (ScaledFloat, ScaledFloat),
    pub red: (ScaledFloat, ScaledFloat),
    pub green: (ScaledFloat, ScaledFloat),
    pub blue: (ScaledFloat, ScaledFloat),
}

/// PNG info struct
#[derive(Clone, Debug)]
pub struct Info {
    pub width: u32,
    pub height: u32,
    pub bit_depth: BitDepth,
    pub color_type: ColorType,
    pub interlaced: bool,
    pub trns: Option<Vec<u8>>,
    pub pixel_dims: Option<PixelDimensions>,
    /// Source system's gamma
    pub source_gamma: Option<ScaledFloat>,
    pub palette: Option<Vec<u8>>,
    pub frame_control: Option<FrameControl>,
    pub animation_control: Option<AnimationControl>,
    pub compression: Compression,
    pub filter: FilterType,
    pub source_chromaticities: Option<SourceChromaticities>,
}

/// The info that `Info::default` gives: an empty 8-bit grayscale image with no
/// ancillary data, compressed fast with the `Sub` filter.
pub open spec fn default_info() -> Info {
    Info {
        width: 0,
        height: 0,
        bit_depth: BitDepth::Eight,
        color_type: ColorType::Grayscale,
        interlaced: false,
        palette: None,
        trns: None,
        pixel_dims: None,
        source_gamma: None,
        frame_control: None,
        animation_control: None,
        compression: Compression::Fast,
        filter: FilterType::Sub,
        source_chromaticities: None,
    }
}

/// Bits of one pixel: samples per pixel times bits per sample.
pub open spec fn pixel_bits(c: ColorType, d: BitDepth) -> int {
    color_samples(c) * depth_bits(d)
}

/// Whole bytes of one pixel: samples per pixel times the bytes that hold one
/// sample.
pub open spec fn pixel_bytes(c: ColorType, d: BitDepth) -> int {
    color_samples(c) * ((depth_bits(d) + 7) / 8)
}

/// A pixel occupies 1, 2, 3, 4, 6 or 8 whole bytes, whatever its colour type
/// and bit depth: `bpp_in_prediction` covers every case.
pub proof fn lemma_pixel_bytes_values(c: ColorType, d: BitDepth)
    ensures
        ({
            let b = pixel_bytes(c, d);
            b == 1 || b == 2 || b == 3 || b == 4 || b == 6 || b == 8
        }),
{
    let per_sample = (depth_bits(d) + 7) / 8;
    assert(per_sample == 1 || per_sample == 2);
    assert(pixel_bytes(c, d) == color_samples(c) * per_sample);
}

/// A raw row of `width` pixels holds the filter byte and then
/// `width * bits_per_pixel` bits of pixel data, rounded up to whole bytes.
pub proof fn lemma_row_bytes_from_pixel_bits(c: ColorType, d: BitDepth, width: u32)
    ensures
        raw_row_bytes(c, d, width) == 1 + (width * pixel_bits(c, d) + 7) / 8,
{
    let w = width as int;
    let s = color_samples(c) as int;
    let b = depth_bits(d) as int;
    assert(w * s * b == w * (s * b)) by (nonlinear_arith);
}

/// The bytes of a pixel, type by type: one sample byte per sample at depths
/// up to 8 and two at depth 16, so grayscale and indexed pixels are 1 or 2
/// bytes, grayscale with alpha 2 or 4, RGB 3 or 6 and RGBA 4 or 8. The
/// prediction width of such a pixel is the `BytesPerPixel` of that name.
pub proof fn lemma_bpp_in_prediction_table(c: ColorType, d: BitDepth, b: BytesPerPixel)
    requires
        bpp_bytes(b) == pixel_bytes(c, d),
    ensures
        b == (match c {
            ColorType::Grayscale | ColorType::Indexed => if d == BitDepth::Sixteen {
                BytesPerPixel::Two
            } else {
                BytesPerPixel::One
            },
            ColorType::GrayscaleAlpha => if d == BitDepth::Sixteen {
                BytesPerPixel::Four
            } else {
                BytesPerPixel::Two
            },
            ColorType::Rgb => if d == BitDepth::Sixteen {
                BytesPerPixel::Six
            } else {
                BytesPerPixel::Three
            },
            ColorType::Rgba => if d == BitDepth::Sixteen {
                BytesPerPixel::Eight
            } else {
                BytesPerPixel::Four
            },
        }),
        pixel_bytes(c, d) == (match c {
            ColorType::Grayscale | ColorType::Indexed => 1int,
            ColorType::GrayscaleAlpha => 2int,
            ColorType::Rgb => 3int,
            ColorType::Rgba => 4int,
        }) * (if d == BitDepth::Sixteen { 2int } else { 1int }),
{
    let per_sample = (depth_bits(d) + 7) / 8;
    assert(per_sample == (if d == BitDepth::Sixteen { 2int } else { 1int }));
    assert(pixel_bytes(c, d) == color_samples(c) * per_sample);
}

impl Default for Info {
    fn default() -> (r: Info)
        ensures
            r == default_info(),
    {
        Info {
            width: 0,
            height: 0,
            bit_depth: BitDepth::Eight,
            color_type: ColorType::Grayscale,
            interlaced: false,
            palette: None,
            trns: None,
            pixel_dims: None,
            source_gamma: None,
            frame_control: None,
            animation_control: None,
            // Default to `deflate::Compresion::Fast` and `filter::FilterType::Sub`
            // to maintain backward compatible output.
            compression: Compression::Fast,
            filter: FilterType::Sub,
            source_chromaticities: None,
        }
    }
}

impl Info {
    /// Size of the image
    pub fn size(&self) -> (r: (u32, u32))
        ensures
            r == (self.width, self.height),
    {
        (self.width, self.height)
    }

    /// Returns true if the image is an APNG image.
    pub fn is_animated(&self) -> (r: bool)
        ensures
            r == (self.frame_control is Some && self.animation_control is Some),
    {
        self.frame_control.is_some() && self.animation_control.is_some()
    }

    /// Returns the frame control information of the image
    pub fn animation_control(&self) -> (r: Option<&AnimationControl>)
        ensures
            r is None <==> self.animation_control is None,
            r matches Some(a) ==> self.animation_control == Some(*a),
    {
        self.animation_control.as_ref()
    }

    /// Returns the frame control information of the current frame
    pub fn frame_control(&self) -> (r: Option<&FrameControl>)
        ensures
            r is None <==> self.frame_control is None,
            r matches Some(f) ==> self.frame_control == Some(*f),
    {
        self.frame_control.as_ref()
    }

    /// Returns the bits per pixel
    pub fn bits_per_pixel(&self) -> (r: usize)
        ensures
            r == pixel_bits(self.color_type, self.bit_depth),
    {
        self.color_type.samples() * (self.bit_depth.into_u8() as usize)
    }

    /// Returns the bytes per pixel
    pub fn bytes_per_pixel(&self) -> (r: usize)
        ensures
            r == pixel_bytes(self.color_type, self.bit_depth),
    {
        // If adjusting this for expansion or other transformation passes, remember to keep the old
        // implementation for bpp_in_prediction, which is internal to the png specification.
        let d = self.bit_depth.into_u8() as usize;
        assert(d <= 16 ==> ((d + 7) as usize) >> 3 == (d + 7) / 8) by (bit_vector);
        self.color_type.samples() * ((d + 7) >> 3)
    }

    /// Return the number of bytes for this pixel used in prediction.
    ///
    /// Some filters use prediction, over the raw bytes of a scanline. Where a previous pixel is
    /// require for such forms the specification instead references previous bytes. That is, for
    /// a gray pixel of bit depth 2, the pixel used in prediction is actually 4 pixels prior. This
    /// has the consequence that the number of possible values is rather small. To make this fact
    /// more obvious in the type system and the optimizer we use an explicit enum here.
    pub fn bpp_in_prediction(&self) -> (r: BytesPerPixel)
        ensures
            bpp_bytes(r) == pixel_bytes(self.color_type, self.bit_depth),
            self.color_type == ColorType::Grayscale && self.bit_depth == BitDepth::Eight ==> r
                == BytesPerPixel::One,
            self.bit_depth == BitDepth::Sixteen ==> r == (match self.color_type {
                ColorType::Grayscale | ColorType::Indexed => BytesPerPixel::Two,
                ColorType::GrayscaleAlpha => BytesPerPixel::Four,
                ColorType::Rgb => BytesPerPixel::Six,
                ColorType::Rgba => BytesPerPixel::Eight,
            }),
            self.bit_depth != BitDepth::Sixteen ==> r == (match self.color_type {
                ColorType::Grayscale | ColorType::Indexed => BytesPerPixel::One,
                ColorType::GrayscaleAlpha => BytesPerPixel::Two,
                ColorType::Rgb => BytesPerPixel::Three,
                ColorType::Rgba => BytesPerPixel::Four,
            }),
    {
        let r = match self.bytes_per_pixel() {
            1 => BytesPerPixel::One,
            2 => BytesPerPixel::Two,
            3 => BytesPerPixel::Three,
            4 => BytesPerPixel::Four,
            6 => BytesPerPixel::Six,  // Only rgb×16bit
            _ => {
                // Only rgba×16bit: no other byte-rounded pixel width is possible.
                proof {
                    lemma_pixel_bytes_values(self.color_type, self.bit_depth);
                }
                BytesPerPixel::Eight
            },
        };
        proof {
            lemma_bpp_in_prediction_table(self.color_type, self.bit_depth, r);
        }
        r
    }

    /// Returns the number of bytes needed for one deinterlaced image
    pub fn raw_bytes(&self) -> (r: usize)
        requires
            row_length_computable(self.color_type, self.bit_depth, self.width),
            self.height * raw_row_bytes(self.color_type, self.bit_depth, self.width)
                <= usize::MAX,
        ensures
            r == self.height * raw_row_bytes(self.color_type, self.bit_depth, self.width),
    {
        let h = self.height as usize;
        let row = self.raw_row_length();
        h * row
    }

    /// Returns the number of bytes needed for one deinterlaced row
    pub fn raw_row_length(&self) -> (r: usize)
        requires
            row_length_computable(self.color_type, self.bit_depth, self.width),
        ensures
            r == raw_row_bytes(self.color_type, self.bit_depth, self.width),
    {
        self.raw_row_length_from_width(self.width)
    }

    /// The number of bytes of one deinterlaced row, or `None` where it does
    /// not fit in a `usize`.
    pub fn checked_raw_row_length(&self) -> (r: Option<usize>)
        ensures
            r == (if raw_row_bytes(self.color_type, self.bit_depth, self.width) <= usize::MAX {
                Some(raw_row_bytes(self.color_type, self.bit_depth, self.width) as usize)
            } else {
                None::<usize>
            }),
    {
        self.color_type.checked_raw_row_length(self.bit_depth, self.width)
    }

    /// Returns the number of bytes needed for one deinterlaced row of width `width`
    pub fn raw_row_length_from_width(&self, width: u32) -> (r: usize)
        requires
            row_length_computable(self.color_type, self.bit_depth, width),
        ensures
            r == raw_row_bytes(self.color_type, self.bit_depth, width),
    {
        self.color_type.raw_row_length_from_width(self.bit_depth, width)
    }
}

} // verus!
