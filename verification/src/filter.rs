//! The scanline filter types of the PNG format.

use vstd::prelude::*;

verus! {

/// The filter method applied to a scanline, as its first byte names it.
#[derive(Debug, Clone, Copy, PartialEq, Eq, Structural)]
pub enum FilterType {
    NoFilter,
    Sub,
    Up,
    Avg,
    Paeth,
}

} // verus!
