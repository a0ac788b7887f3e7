use vstd::prelude::*;

use crate::fonts::atlas::FontId;

verus! {

/// Runtime data for a single font within a font atlas.
///
/// Treated as opaque and held by the address at which the atlas keeps it:
/// consumers only need a font as a stable identifier (see [`Font::id`]).
#[derive(Debug)]
pub struct Font {
    address: usize,
}

impl Font {
    /// The address of the font in its atlas.
    pub closed spec fn address(self) -> usize {
        self.address
    }

    /// The font kept at this address.
    pub(crate) fn at(address: usize) -> (r: Font)
        ensures
            r.address() == address,
    {
        Font { address }
    }

    /// Returns the identifier of this font
    pub fn id(&self) -> (r: FontId)
        ensures
            r@ == self.address(),
    {
        FontId::at(self.address)
    }
}

} // verus!
