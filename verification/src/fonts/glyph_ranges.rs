use vstd::prelude::*;

verus! {

/// A set of Unicode glyph ranges for a font. dear imgui resolves it against
/// the atlas to the table of ranges that the raw configuration points at.
#[derive(Clone, Copy, Debug, PartialEq, Eq, Structural)]
pub struct FontGlyphRanges(FontGlyphRangeData);

/// The glyph range sets that a font can ask for.
#[derive(Clone, Copy, Debug, PartialEq, Eq, Structural)]
enum FontGlyphRangeData {
    /// Basic Latin and Latin-1 Supplement.
    Default,
}

impl FontGlyphRanges {
    /// The default glyph ranges.
    pub closed spec fn spec_default() -> FontGlyphRanges {
        FontGlyphRanges(FontGlyphRangeData::Default)
    }

    /// The default glyph ranges: Basic Latin and Latin-1 Supplement.
    pub fn default() -> (r: FontGlyphRanges)
        ensures
            r == FontGlyphRanges::spec_default(),
    {
        FontGlyphRanges(FontGlyphRangeData::Default)
    }
}

} // verus!
