use png_common::compression::DeflateLevel;
use png_common::{
    AnimationControl, BitDepth, BlendOp, BytesPerPixel, ColorType, Compression, DeflateMatching,
    DeflateSpecial, DisposeOp, FilterType, FrameControl, Info, ParameterError,
    ParameterErrorKind, PixelDimensions, ScaledFloat, Unit,
};

const COLOR_TYPES: [ColorType; 5] = [
    ColorType::Grayscale,
    ColorType::Rgb,
    ColorType::Indexed,
    ColorType::GrayscaleAlpha,
    ColorType::Rgba,
];

const BIT_DEPTHS: [BitDepth; 5] = [
    BitDepth::One,
    BitDepth::Two,
    BitDepth::Four,
    BitDepth::Eight,
    BitDepth::Sixteen,
];

fn info(color_type: ColorType, bit_depth: BitDepth, width: u32, height: u32) -> Info {
    let mut i = Info::default();
    i.color_type = color_type;
    i.bit_depth = bit_depth;
    i.width = width;
    i.height = height;
    i
}

#[test]
fn samples_per_color_type() {
    assert_eq!(ColorType::Grayscale.samples(), 1);
    assert_eq!(ColorType::Rgb.samples(), 3);
    assert_eq!(ColorType::Indexed.samples(), 1);
    assert_eq!(ColorType::GrayscaleAlpha.samples(), 2);
    assert_eq!(ColorType::Rgba.samples(), 4);
    assert_eq!(ColorType::Rgba.samples_u8(), 4);
}

#[test]
fn color_type_codes() {
    assert_eq!(ColorType::from_u8(0), Some(ColorType::Grayscale));
    assert_eq!(ColorType::from_u8(2), Some(ColorType::Rgb));
    assert_eq!(ColorType::from_u8(3), Some(ColorType::Indexed));
    assert_eq!(ColorType::from_u8(4), Some(ColorType::GrayscaleAlpha));
    assert_eq!(ColorType::from_u8(6), Some(ColorType::Rgba));
    for n in [1u8, 5, 7, 8, 255] {
        assert_eq!(ColorType::from_u8(n), None);
    }
    assert_eq!(ColorType::Rgba.into_u8(), 6);
}

#[test]
fn color_type_code_roundtrip() {
    for c in COLOR_TYPES {
        assert_eq!(ColorType::from_u8(c.into_u8()), Some(c));
    }
    for n in 0..=255u8 {
        if let Some(c) = ColorType::from_u8(n) {
            assert_eq!(c.into_u8(), n);
        }
    }
}

#[test]
fn bit_depth_codes() {
    assert_eq!(BitDepth::from_u8(1), Some(BitDepth::One));
    assert_eq!(BitDepth::from_u8(2), Some(BitDepth::Two));
    assert_eq!(BitDepth::from_u8(4), Some(BitDepth::Four));
    assert_eq!(BitDepth::from_u8(8), Some(BitDepth::Eight));
    assert_eq!(BitDepth::from_u8(16), Some(BitDepth::Sixteen));
    for n in [0u8, 3, 5, 7, 9, 15, 17, 32, 255] {
        assert_eq!(BitDepth::from_u8(n), None);
    }
    for d in BIT_DEPTHS {
        assert_eq!(BitDepth::from_u8(d.into_u8()), Some(d));
    }
    assert_eq!(BitDepth::Sixteen.into_u8(), 16);
}

#[test]
fn unit_codes() {
    assert_eq!(Unit::from_u8(0), Some(Unit::Unspecified));
    assert_eq!(Unit::from_u8(1), Some(Unit::Meter));
    assert_eq!(Unit::from_u8(2), None);
    assert_eq!(Unit::from_u8(Unit::Meter.into_u8()), Some(Unit::Meter));
    let dims = PixelDimensions { xppu: 2835, yppu: 2835, unit: Unit::Meter };
    assert_eq!(dims.unit.into_u8(), 1);
}

#[test]
fn dispose_op_codes_and_names() {
    assert_eq!(DisposeOp::from_u8(0), Some(DisposeOp::Keep));
    assert_eq!(DisposeOp::from_u8(1), Some(DisposeOp::Background));
    assert_eq!(DisposeOp::from_u8(2), Some(DisposeOp::Previous));
    assert_eq!(DisposeOp::from_u8(3), None);
    for op in [DisposeOp::Keep, DisposeOp::Background, DisposeOp::Previous] {
        assert_eq!(DisposeOp::from_u8(op.into_u8()), Some(op));
    }
    assert_eq!(DisposeOp::Keep.to_string(), "DISPOSE_OP_NONE");
    assert_eq!(DisposeOp::Background.to_string(), "DISPOSE_OP_BACKGROUND");
    assert_eq!(DisposeOp::Previous.to_string(), "DISPOSE_OP_PREVIOUS");
}

#[test]
fn blend_op_codes_and_names() {
    assert_eq!(BlendOp::from_u8(0), Some(BlendOp::Source));
    assert_eq!(BlendOp::from_u8(1), Some(BlendOp::Over));
    assert_eq!(BlendOp::from_u8(2), None);
    assert_eq!(BlendOp::from_u8(BlendOp::Over.into_u8()), Some(BlendOp::Over));
    assert_eq!(BlendOp::Source.to_string(), "BLEND_OP_SOURCE");
    assert_eq!(BlendOp::Over.to_string(), "BLEND_OP_OVER");
}

#[test]
fn frame_control_default_and_sequence() {
    let fc = FrameControl::default();
    assert_eq!(fc.sequence_number, 0);
    assert_eq!((fc.width, fc.height, fc.x_offset, fc.y_offset), (0, 0, 0, 0));
    assert_eq!((fc.delay_num, fc.delay_den), (1, 30));
    assert_eq!(fc.dispose_op, DisposeOp::Keep);
    assert_eq!(fc.blend_op, BlendOp::Source);

    let mut fc = FrameControl { width: 7, delay_num: 3, ..FrameControl::default() };
    fc.set_seq_num(41);
    assert_eq!(fc.sequence_number, 41);
    fc.inc_seq_num(2);
    assert_eq!(fc.sequence_number, 43);
    assert_eq!((fc.width, fc.delay_num), (7, 3));
    fc.set_seq_num(u32::MAX - 1);
    fc.inc_seq_num(1);
    assert_eq!(fc.sequence_number, u32::MAX);
}

#[test]
fn combination_validity() {
    for c in COLOR_TYPES {
        assert!(!c.is_combination_invalid(BitDepth::Eight));
    }
    assert!(!ColorType::Grayscale.is_combination_invalid(BitDepth::One));
    assert!(!ColorType::Indexed.is_combination_invalid(BitDepth::Four));
    assert!(!ColorType::Rgba.is_combination_invalid(BitDepth::Sixteen));
    assert!(ColorType::Rgb.is_combination_invalid(BitDepth::Two));
    assert!(ColorType::GrayscaleAlpha.is_combination_invalid(BitDepth::Four));
    assert!(ColorType::Rgba.is_combination_invalid(BitDepth::One));
    assert!(ColorType::Indexed.is_combination_invalid(BitDepth::Sixteen));
}

#[test]
fn raw_row_lengths() {
    // 1 filter byte + ceil(bits / 8)
    assert_eq!(ColorType::Rgb.raw_row_length_from_width(BitDepth::Eight, 10), 31);
    assert_eq!(ColorType::Rgba.raw_row_length_from_width(BitDepth::Sixteen, 3), 25);
    assert_eq!(ColorType::Grayscale.raw_row_length_from_width(BitDepth::One, 9), 3);
    assert_eq!(ColorType::Grayscale.raw_row_length_from_width(BitDepth::One, 8), 2);
    assert_eq!(ColorType::Indexed.raw_row_length_from_width(BitDepth::Two, 5), 3);
    assert_eq!(ColorType::Indexed.raw_row_length_from_width(BitDepth::Four, 3), 3);
    assert_eq!(ColorType::Rgb.raw_row_length_from_width(BitDepth::Eight, 0), 1);
    assert_eq!(ColorType::Rgb.checked_raw_row_length(BitDepth::Eight, 10), Some(31));
    assert_eq!(ColorType::Grayscale.checked_raw_row_length(BitDepth::One, 9), Some(3));
}

#[test]
fn checked_row_length_agrees_with_unchecked() {
    for c in COLOR_TYPES {
        for d in BIT_DEPTHS {
            if c.is_combination_invalid(d) {
                continue;
            }
            for w in [0u32, 1, 2, 3, 7, 8, 9, 15, 16, 17, 1000, 65535] {
                let bits = u64::from(w) * u64::from(c.samples_u8()) * u64::from(d.into_u8());
                let expected = 1 + (bits + 7) / 8;
                assert_eq!(c.checked_raw_row_length(d, w), Some(expected as usize));
                assert_eq!(c.raw_row_length_from_width(d, w), expected as usize);
            }
        }
    }
}

#[test]
fn checked_row_length_of_widest_row() {
    // Every row of a 32-bit width fits in 64 bits.
    let row = ColorType::Rgba.checked_raw_row_length(BitDepth::Sixteen, u32::MAX);
    let expected = 1 + u64::from(u32::MAX) * 8;
    if expected <= usize::MAX as u64 {
        assert_eq!(row, Some(expected as usize));
    } else {
        assert_eq!(row, None);
    }
}

#[test]
fn pixel_sizes() {
    let i = info(ColorType::Rgb, BitDepth::Eight, 1, 1);
    assert_eq!(i.bits_per_pixel(), 24);
    assert_eq!(i.bytes_per_pixel(), 3);
    let i = info(ColorType::Rgba, BitDepth::Sixteen, 1, 1);
    assert_eq!(i.bits_per_pixel(), 64);
    assert_eq!(i.bytes_per_pixel(), 8);
    let i = info(ColorType::Grayscale, BitDepth::Two, 1, 1);
    assert_eq!(i.bits_per_pixel(), 2);
    assert_eq!(i.bytes_per_pixel(), 1);
    let i = info(ColorType::GrayscaleAlpha, BitDepth::Sixteen, 1, 1);
    assert_eq!(i.bits_per_pixel(), 32);
    assert_eq!(i.bytes_per_pixel(), 4);
}

#[test]
fn bpp_in_prediction_covers_every_pixel() {
    for c in COLOR_TYPES {
        for d in BIT_DEPTHS {
            let i = info(c, d, 1, 1);
            assert_eq!(i.bpp_in_prediction().into_usize(), i.bytes_per_pixel());
        }
    }
    let i = info(ColorType::Rgb, BitDepth::Sixteen, 1, 1);
    assert_eq!(i.bpp_in_prediction(), BytesPerPixel::Six);
    let i = info(ColorType::Rgba, BitDepth::Sixteen, 1, 1);
    assert_eq!(i.bpp_in_prediction(), BytesPerPixel::Eight);
    assert_eq!(BytesPerPixel::Three.into_usize(), 3);
}

#[test]
fn row_length_matches_bits_per_pixel() {
    for c in COLOR_TYPES {
        for d in BIT_DEPTHS {
            for w in [0u32, 1, 5, 13, 100] {
                let i = info(c, d, w, 1);
                let bits = w as usize * i.bits_per_pixel();
                assert_eq!(i.raw_row_length(), 1 + (bits + 7) / 8);
            }
        }
    }
}

#[test]
fn image_sizes() {
    let i = info(ColorType::Rgb, BitDepth::Eight, 10, 4);
    assert_eq!(i.size(), (10, 4));
    assert_eq!(i.raw_row_length(), 31);
    assert_eq!(i.raw_row_length_from_width(2), 7);
    assert_eq!(i.checked_raw_row_length(), Some(31));
    assert_eq!(i.raw_bytes(), 124);
    let i = info(ColorType::Grayscale, BitDepth::One, 9, 0);
    assert_eq!(i.raw_bytes(), 0);
}

#[test]
fn info_defaults() {
    let i = Info::default();
    assert_eq!(i.size(), (0, 0));
    assert_eq!(i.bit_depth, BitDepth::Eight);
    assert_eq!(i.color_type, ColorType::Grayscale);
    assert!(!i.interlaced);
    assert!(i.trns.is_none() && i.palette.is_none());
    assert!(i.pixel_dims.is_none() && i.source_gamma.is_none());
    assert!(i.source_chromaticities.is_none());
    assert!(matches!(i.compression, Compression::Fast));
    assert_eq!(i.filter, FilterType::Sub);
    assert!(!i.is_animated());
    assert!(i.frame_control().is_none());
    assert!(i.animation_control().is_none());
    assert_eq!(i.raw_row_length(), 1);
}

#[test]
fn animated_info() {
    let mut i = Info::default();
    i.frame_control = Some(FrameControl::default());
    assert!(!i.is_animated());
    assert_eq!(i.frame_control().map(|f| f.delay_den), Some(30));
    i.animation_control = Some(AnimationControl { num_frames: 3, num_plays: 0 });
    assert!(i.is_animated());
    assert_eq!(i.animation_control().map(|a| a.num_frames), Some(3));
    i.frame_control = None;
    assert!(!i.is_animated());
}

#[test]
fn scaled_float_roundtrip() {
    let s = ScaledFloat::from_scaled(45455);
    assert_eq!(s.into_scaled(), 45455);
    assert_eq!(ScaledFloat::from_scaled(s.into_scaled()), s);
    assert_ne!(ScaledFloat::from_scaled(1), ScaledFloat::from_scaled(2));
    assert_eq!(ScaledFloat::from_scaled(u32::MAX).into_scaled(), u32::MAX);
}

#[test]
fn deflate_options_per_compression() {
    let o = Compression::Default.deflate_options();
    assert_eq!((o.max_hash_checks, o.lazy_if_less_than), (128, 32));
    assert_eq!(o.matching_type, DeflateMatching::Lazy);
    let o = Compression::Fast.deflate_options();
    assert_eq!((o.max_hash_checks, o.lazy_if_less_than), (1, 0));
    assert_eq!(o.matching_type, DeflateMatching::Greedy);
    let o = Compression::Best.deflate_options();
    assert_eq!((o.max_hash_checks, o.lazy_if_less_than), (1768, 128));
    let o = Compression::Huffman.deflate_options();
    assert_eq!((o.max_hash_checks, o.matching_type), (0, DeflateMatching::Greedy));
    let o = Compression::Rle.deflate_options();
    assert_eq!((o.max_hash_checks, o.matching_type), (0, DeflateMatching::Lazy));
    assert_eq!(o.special, DeflateSpecial::Normal);
}

#[test]
fn deflate_options_agree_with_deflate() {
    for (c, d) in [
        (Compression::Default, deflate::CompressionOptions::default()),
        (Compression::Fast, deflate::CompressionOptions::fast()),
        (Compression::Best, deflate::CompressionOptions::high()),
        (Compression::Huffman, deflate::CompressionOptions::huffman_only()),
        (Compression::Rle, deflate::CompressionOptions::rle()),
    ] {
        let o = c.deflate_options();
        assert_eq!(o.max_hash_checks, d.max_hash_checks);
        assert_eq!(o.lazy_if_less_than, d.lazy_if_less_than);
        let lazy = d.matching_type == deflate::MatchingType::Lazy;
        assert_eq!(o.matching_type == DeflateMatching::Lazy, lazy);
        assert_eq!(o.special == DeflateSpecial::Normal, d.special == deflate::SpecialOptions::Normal);
    }
}

#[test]
fn compression_from_deflate() {
    assert!(matches!(Compression::from_deflate(deflate::Compression::Fast), Compression::Fast));
    assert!(matches!(Compression::from_deflate(deflate::Compression::Default), Compression::Default));
    assert!(matches!(Compression::from_deflate(deflate::Compression::Best), Compression::Best));
    assert!(matches!(Compression::from_deflate_level(DeflateLevel::Best), Compression::Best));
}

#[test]
fn deflate_level_roundtrip() {
    for (level, ours) in [
        (deflate::Compression::Fast, DeflateLevel::Fast),
        (deflate::Compression::Default, DeflateLevel::Default),
        (deflate::Compression::Best, DeflateLevel::Best),
    ] {
        let theirs = deflate::CompressionOptions::from(level);
        let o = Compression::from_deflate(level).deflate_options();
        assert_eq!(o, Compression::from_deflate_level(ours).deflate_options());
        assert_eq!(o.max_hash_checks, theirs.max_hash_checks);
        assert_eq!(o.lazy_if_less_than, theirs.lazy_if_less_than);
    }
}

#[test]
fn parameter_error_messages() {
    let e = ParameterError::from(ParameterErrorKind::ImageBufferSize { expected: 1024, actual: 7 });
    assert_eq!(e.to_string(), "wrong data size, expected 1024 got 7");
    let e = ParameterError::from(ParameterErrorKind::ImageBufferSize { expected: 0, actual: usize::MAX });
    assert_eq!(e.to_string(), format!("wrong data size, expected 0 got {}", usize::MAX));
    let e = ParameterError::from(ParameterErrorKind::PolledAfterEndOfImage);
    assert_eq!(e.to_string(), "End of image has been reached");
}
