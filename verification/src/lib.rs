//! Composes Korean Hangul glyphs from combinational jamo bitmap fonts,
//! builds packed bitmask font tables from glyph-sheet images, and lays out
//! mixed ASCII/Hangul text with wrapping and vertical truncation.

use vstd::prelude::*;

pub mod cell;
pub mod font;
pub mod jaso;
pub mod lang;
pub mod layout;
pub mod pixels;
pub mod table;

verus! {

/// The ways a font-table build or a compositing step can fail.
#[derive(Clone, Copy, Debug, PartialEq, Eq, Structural)]
pub enum FontError {
    /// A requested glyph region lies outside the source image.
    OutOfBounds,
    /// A component needs a row-group variant but none was supplied.
    UnmappedRowGroup,
    /// The character falls outside every renderable range.
    UnsupportedCharacter,
}

} // verus!
