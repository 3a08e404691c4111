//! Compression settings, and how they map onto the options of the `deflate`
//! encoder.

use deflate::Compression as DeflateCompression;
use vstd::prelude::*;

verus! {

/// The type and strength of applied compression.
#[derive(Debug, Clone)]
pub enum Compression {
    /// Default level
    Default,
    /// Fast minimal compression
    Fast,
    /// Higher compression level
    ///
    /// Best in this context isn't actually the highest possible level
    /// the encoder can do, but is meant to emulate the `Best` setting in the `Flate2`
    /// library.
    Best,
    Huffman,
    Rle,
}

/// The compression levels of the `deflate` crate, as plain values.
#[derive(Debug, Clone, Copy, PartialEq, Eq, Structural)]
pub enum DeflateLevel {
    Fast,
    Default,
    Best,
}

/// Whether the `deflate` encoder matches lazily or greedily.
#[derive(Debug, Clone, Copy, PartialEq, Eq, Structural)]
pub enum DeflateMatching {
    Greedy,
    Lazy,
}

/// The special block options of the `deflate` encoder.
#[derive(Debug, Clone, Copy, PartialEq, Eq, Structural)]
pub enum DeflateSpecial {
    Normal,
    ForceFixed,
    ForceStored,
}

/// The settings of the `deflate` encoder (its `CompressionOptions`), as plain values.
#[derive(Debug, Clone, Copy, PartialEq, Eq, Structural)]
pub struct DeflateOptions {
    /// The maximum number of checks to make in the hash table for matches.
    pub max_hash_checks: u16,
    /// Only lazy match if we have a length less than this value.
    pub lazy_if_less_than: u16,
    /// Whether to use lazy or greedy matching.
    pub matching_type: DeflateMatching,
    /// Force fixed/stored blocks.
    pub special: DeflateSpecial,
}

/// The `deflate` crate's default profile (`CompressionOptions::default()`).
pub open spec fn deflate_default_options() -> DeflateOptions {
    DeflateOptions {
        max_hash_checks: 128,
        lazy_if_less_than: 32,
        matching_type: DeflateMatching::Lazy,
        special: DeflateSpecial::Normal,
    }
}

/// The `deflate` crate's fast profile (`CompressionOptions::fast()`).
pub open spec fn deflate_fast_options() -> DeflateOptions {
    DeflateOptions {
        max_hash_checks: 1,
        lazy_if_less_than: 0,
        matching_type: DeflateMatching::Greedy,
        special: DeflateSpecial::Normal,
    }
}

/// The `deflate` crate's high profile (`CompressionOptions::high()`).
pub open spec fn deflate_high_options() -> DeflateOptions {
    DeflateOptions {
        max_hash_checks: 1768,
        lazy_if_less_than: 128,
        matching_type: DeflateMatching::Lazy,
        special: DeflateSpecial::Normal,
    }
}

/// The `deflate` crate's Huffman-only profile (`CompressionOptions::huffman_only()`).
pub open spec fn deflate_huffman_options() -> DeflateOptions {
    DeflateOptions {
        max_hash_checks: 0,
        lazy_if_less_than: 0,
        matching_type: DeflateMatching::Greedy,
        special: DeflateSpecial::Normal,
    }
}

/// The `deflate` crate's run-length profile (`CompressionOptions::rle()`).
pub open spec fn deflate_rle_options() -> DeflateOptions {
    DeflateOptions {
        max_hash_checks: 0,
        lazy_if_less_than: 0,
        matching_type: DeflateMatching::Lazy,
        special: DeflateSpecial::Normal,
    }
}

/// The encoder settings that each compression setting selects.
pub open spec fn compression_options(c: Compression) -> DeflateOptions {
    match c {
        Compression::Default => deflate_default_options(),
        Compression::Fast => deflate_fast_options(),
        Compression::Best => deflate_high_options(),
        Compression::Huffman => deflate_huffman_options(),
        Compression::Rle => deflate_rle_options(),
    }
}

/// The compression setting that stands for a level of the `deflate` crate.
pub open spec fn compression_of_level(l: DeflateLevel) -> Compression {
    match l {
        DeflateLevel::Default => Compression::Default,
        DeflateLevel::Fast => Compression::Fast,
        DeflateLevel::Best => Compression::Best,
    }
}

/// The profile that the `deflate` crate itself assigns to one of its levels
/// (its `From<Compression> for CompressionOptions`).
pub open spec fn deflate_level_options(l: DeflateLevel) -> DeflateOptions {
    match l {
        DeflateLevel::Fast => deflate_fast_options(),
        DeflateLevel::Default => deflate_default_options(),
        DeflateLevel::Best => deflate_high_options(),
    }
}

#[verifier::external_type_specification]
#[verifier::external_body]
pub struct ExDeflateCompression(DeflateCompression);

/// The level that a value of `deflate::Compression` is.
pub uninterp spec fn deflate_level_of(c: DeflateCompression) -> DeflateLevel;

/// Tells the variants of `deflate::Compression` apart, one for one:
/// `Fast`, `Default` and `Best` become the `DeflateLevel` of the same name.
/// The contract only names the result, as Verus sees nothing inside the
/// outside enum.
#[verifier::external_body]
fn deflate_level(c: DeflateCompression) -> (r: DeflateLevel)
    ensures
        r == deflate_level_of(c),
{
    match c {
        DeflateCompression::Fast => DeflateLevel::Fast,
        DeflateCompression::Default => DeflateLevel::Default,
        DeflateCompression::Best => DeflateLevel::Best,
    }
}

impl Compression {
    /// The compression setting for a level of the `deflate` crate.
    pub fn from_deflate_level(l: DeflateLevel) -> (r: Compression)
        ensures
            r == compression_of_level(l),
    {
        match l {
            DeflateLevel::Default => Compression::Default,
            DeflateLevel::Fast => Compression::Fast,
            DeflateLevel::Best => Compression::Best,
        }
    }

    /// The compression setting for a `deflate::Compression`.
    pub fn from_deflate(c: DeflateCompression) -> (r: Compression)
        ensures
            r == compression_of_level(deflate_level_of(c)),
    {
        Compression::from_deflate_level(deflate_level(c))
    }

    /// The options of the `deflate` encoder that this setting selects.
    pub fn deflate_options(&self) -> (r: DeflateOptions)
        ensures
            r == compression_options(*self),
    {
        match self {
            Compression::Default => DeflateOptions {
                max_hash_checks: 128,
                lazy_if_less_than: 32,
                matching_type: DeflateMatching::Lazy,
                special: DeflateSpecial::Normal,
            },
            Compression::Fast => DeflateOptions {
                max_hash_checks: 1,
                lazy_if_less_than: 0,
                matching_type: DeflateMatching::Greedy,
                special: DeflateSpecial::Normal,
            },
            Compression::Best => DeflateOptions {
                max_hash_checks: 1768,
                lazy_if_less_than: 128,
                matching_type: DeflateMatching::Lazy,
                special: DeflateSpecial::Normal,
            },
            Compression::Huffman => DeflateOptions {
                max_hash_checks: 0,
                lazy_if_less_than: 0,
                matching_type: DeflateMatching::Greedy,
                special: DeflateSpecial::Normal,
            },
            Compression::Rle => DeflateOptions {
                max_hash_checks: 0,
                lazy_if_less_than: 0,
                matching_type: DeflateMatching::Lazy,
                special: DeflateSpecial::Normal,
            },
        }
    }
}

/// The encoder profile of each compression setting, field by field as the
/// `deflate` crate defines its profiles: `Default` checks 128 hash entries and
/// matches lazily below length 32; `Fast` checks one entry and matches
/// greedily; `Best` checks 1768 entries and matches lazily below length 128;
/// `Huffman` and `Rle` check none, greedily and lazily. No profile forces
/// special blocks.
pub proof fn lemma_compression_profiles()
    ensures
        compression_options(Compression::Default) == (DeflateOptions {
            max_hash_checks: 128,
            lazy_if_less_than: 32,
            matching_type: DeflateMatching::Lazy,
            special: DeflateSpecial::Normal,
        }),
        compression_options(Compression::Fast) == (DeflateOptions {
            max_hash_checks: 1,
            lazy_if_less_than: 0,
            matching_type: DeflateMatching::Greedy,
            special: DeflateSpecial::Normal,
        }),
        compression_options(Compression::Best) == (DeflateOptions {
            max_hash_checks: 1768,
            lazy_if_less_than: 128,
            matching_type: DeflateMatching::Lazy,
            special: DeflateSpecial::Normal,
        }),
        compression_options(Compression::Huffman) == (DeflateOptions {
            max_hash_checks: 0,
            lazy_if_less_than: 0,
            matching_type: DeflateMatching::Greedy,
            special: DeflateSpecial::Normal,
        }),
        compression_options(Compression::Rle) == (DeflateOptions {
            max_hash_checks: 0,
            lazy_if_less_than: 0,
            matching_type: DeflateMatching::Lazy,
            special: DeflateSpecial::Normal,
        }),
        compression_of_level(DeflateLevel::Fast) == Compression::Fast,
        compression_of_level(DeflateLevel::Default) == Compression::Default,
        compression_of_level(DeflateLevel::Best) == Compression::Best,
{
}

/// Taking a level of the `deflate` crate into a compression setting and back
/// into encoder options gives the profile that `deflate` itself assigns to
/// that level.
pub proof fn lemma_deflate_level_roundtrip(l: DeflateLevel)
    ensures
        compression_options(compression_of_level(l)) == deflate_level_options(l),
{
}

} // verus!
