//! Fonts and the font atlas.

pub mod atlas;
pub mod font;
pub mod glyph_ranges;
