//! Common PNG image types: colour layouts, bit depths, animation control,
//! image information and the arithmetic that sizes image rows.

pub mod animation;
pub mod color;
pub mod compression;
pub mod error;
pub mod filter;
pub mod info;

pub use animation::{AnimationControl, BlendOp, DisposeOp, FrameControl};
pub use color::{BitDepth, BytesPerPixel, ColorType};
pub use compression::{Compression, DeflateLevel, DeflateMatching, DeflateOptions, DeflateSpecial};
pub use error::{ParameterError, ParameterErrorKind};
pub use filter::FilterType;
pub use info::{Info, PixelDimensions, ScaledFloat, SourceChromaticities, Unit};
