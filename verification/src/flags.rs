//! Flag sets of the IO block and of the font atlas. A set holds only the bits
//! that name one of its flags; the values are dear imgui's.

use vstd::prelude::*;

verus! {

/// Every flag constant, the empty set and each full set lie within the mask
/// of their set.
proof fn lemma_flag_constants()
    by (bit_vector)
    ensures
        0x0000_0001u32 & !0x0030_0033u32 == 0,
        0x0000_0001u32 & 0x0030_0033u32 == 0x0000_0001u32,
        0x0000_0002u32 & !0x0030_0033u32 == 0,
        0x0000_0002u32 & 0x0030_0033u32 == 0x0000_0002u32,
        0x0000_0010u32 & !0x0030_0033u32 == 0,
        0x0000_0010u32 & 0x0030_0033u32 == 0x0000_0010u32,
        0x0000_0020u32 & !0x0030_0033u32 == 0,
        0x0000_0020u32 & 0x0030_0033u32 == 0x0000_0020u32,
        0x0010_0000u32 & !0x0030_0033u32 == 0,
        0x0010_0000u32 & 0x0030_0033u32 == 0x0010_0000u32,
        0x0020_0000u32 & !0x0030_0033u32 == 0,
        0x0020_0000u32 & 0x0030_0033u32 == 0x0020_0000u32,
        0u32 & !0x0030_0033u32 == 0,
        0u32 & 0x0030_0033u32 == 0u32,
        0x0030_0033u32 & !0x0030_0033u32 == 0,
        0x0030_0033u32 & 0x0030_0033u32 == 0x0030_0033u32,
        0x0000_0001u32 & !0x0000_000fu32 == 0,
        0x0000_0001u32 & 0x0000_000fu32 == 0x0000_0001u32,
        0x0000_0002u32 & !0x0000_000fu32 == 0,
        0x0000_0002u32 & 0x0000_000fu32 == 0x0000_0002u32,
        0x0000_0004u32 & !0x0000_000fu32 == 0,
        0x0000_0004u32 & 0x0000_000fu32 == 0x0000_0004u32,
        0x0000_0008u32 & !0x0000_000fu32 == 0,
        0x0000_0008u32 & 0x0000_000fu32 == 0x0000_0008u32,
        0u32 & !0x0000_000fu32 == 0,
        0u32 & 0x0000_000fu32 == 0u32,
        0x0000_000fu32 & !0x0000_000fu32 == 0,
        0x0000_000fu32 & 0x0000_000fu32 == 0x0000_000fu32,
        0x0000_0001u32 & !0x0000_0007u32 == 0,
        0x0000_0001u32 & 0x0000_0007u32 == 0x0000_0001u32,
        0x0000_0002u32 & !0x0000_0007u32 == 0,
        0x0000_0002u32 & 0x0000_0007u32 == 0x0000_0002u32,
        0x0000_0004u32 & !0x0000_0007u32 == 0,
        0x0000_0004u32 & 0x0000_0007u32 == 0x0000_0004u32,
        0u32 & !0x0000_0007u32 == 0,
        0u32 & 0x0000_0007u32 == 0u32,
        0x0000_0007u32 & !0x0000_0007u32 == 0,
        0x0000_0007u32 & 0x0000_0007u32 == 0x0000_0007u32,
{
}

/// Masking keeps a value within the mask.
pub proof fn lemma_and_within(x: u32, m: u32)
    by (bit_vector)
    ensures
        (x & m) & !m == 0,
        (x & m) & m == x & m,
{
}

/// A value within a mask is unchanged by the mask.
pub proof fn lemma_within_mask(x: u32, m: u32)
    by (bit_vector)
    requires
        x & !m == 0,
    ensures
        x & m == x,
{
}

/// A value within a mask stays within it when intersected with anything.
proof fn lemma_and_within_both(x: u32, y: u32, m: u32)
    by (bit_vector)
    requires
        x & !m == 0,
    ensures
        (x & y) & !m == 0,
{
}

/// The union of two values within a mask is within it.
proof fn lemma_or_within(x: u32, y: u32, m: u32)
    by (bit_vector)
    requires
        x & !m == 0,
        y & !m == 0,
    ensures
        (x | y) & !m == 0,
{
}

/// Over the bits of any flag set: after inserting `other` the set contains
/// it, and after removing `other` the set shares no flag with it.
pub proof fn lemma_insert_contains_remove_disjoint(set: u32, other: u32)
    by (bit_vector)
    ensures
        (set | other) & other == other,
        (set & !other) & other == 0,
{
}

/// The symmetric difference of two values within a mask is within it.
proof fn lemma_xor_within(x: u32, y: u32, m: u32)
    by (bit_vector)
    requires
        x & !m == 0,
        y & !m == 0,
    ensures
        (x ^ y) & !m == 0,
{
}

/// Configuration flags
#[derive(Clone, Copy, Debug, PartialEq, Eq, Structural, Hash)]
pub struct ConfigFlags {
    bits: u32,
}

impl View for ConfigFlags {
    type V = u32;

    /// The bits of the set.
    closed spec fn view(&self) -> u32 {
        self.bits
    }
}

impl ConfigFlags {
    /// Every bit that names a flag of this set.
    pub open spec fn all_bits() -> u32 {
        0x0030_0033u32
    }

    #[verifier::type_invariant]
    spec fn known_bits_only(self) -> bool {
        self.bits & !0x0030_0033u32 == 0
    }

    /// The bits name flags of this set only, as they do for every set that
    /// the functions of this type give.
    pub open spec fn valid(self) -> bool {
        self@ & !Self::all_bits() == 0
    }

    /// A set is determined by its bits.
    pub broadcast proof fn lemma_view_injective(a: Self, b: Self)
        ensures
            #![trigger a@, b@]
            a@ == b@ ==> a == b,
    {
    }

    /// The bits of a valid set name flags only, so rebuilding the set from
    /// them, truncated or not, gives the same bits.
    pub proof fn lemma_bits_roundtrip(f: Self)
        requires
            f.valid(),
        ensures
            f@ & Self::all_bits() == f@,
    {
        lemma_within_mask(f@, 0x0030_0033u32);
    }

    /// Master keyboard navigation enable flag.
    #[allow(non_snake_case)]
    pub fn NAV_ENABLE_KEYBOARD() -> (r: Self)
        ensures
            r@ == 0x0000_0001u32,
            r.valid(),
    {
        proof { lemma_flag_constants(); }
        ConfigFlags { bits: 0x0000_0001u32 }
    }

    /// Master gamepad navigation enable flag.
    #[allow(non_snake_case)]
    pub fn NAV_ENABLE_GAMEPAD() -> (r: Self)
        ensures
            r@ == 0x0000_0002u32,
            r.valid(),
    {
        proof { lemma_flag_constants(); }
        ConfigFlags { bits: 0x0000_0002u32 }
    }

    /// Instruction to clear the mouse position and buttons each frame.
    #[allow(non_snake_case)]
    pub fn NO_MOUSE() -> (r: Self)
        ensures
            r@ == 0x0000_0010u32,
            r.valid(),
    {
        proof { lemma_flag_constants(); }
        ConfigFlags { bits: 0x0000_0010u32 }
    }

    /// Instruction backend to not alter mouse cursor shape and visibility.
    #[allow(non_snake_case)]
    pub fn NO_MOUSE_CURSOR_CHANGE() -> (r: Self)
        ensures
            r@ == 0x0000_0020u32,
            r.valid(),
    {
        proof { lemma_flag_constants(); }
        ConfigFlags { bits: 0x0000_0020u32 }
    }

    /// Application is SRGB-aware.
    #[allow(non_snake_case)]
    pub fn IS_SRGB() -> (r: Self)
        ensures
            r@ == 0x0010_0000u32,
            r.valid(),
    {
        proof { lemma_flag_constants(); }
        ConfigFlags { bits: 0x0010_0000u32 }
    }

    /// Application is using a touch screen instead of a mouse.
    #[allow(non_snake_case)]
    pub fn IS_TOUCH_SCREEN() -> (r: Self)
        ensures
            r@ == 0x0020_0000u32,
            r.valid(),
    {
        proof { lemma_flag_constants(); }
        ConfigFlags { bits: 0x0020_0000u32 }
    }

    /// The empty set.
    pub fn empty() -> (r: Self)
        ensures
            r@ == 0,
            r.valid(),
    {
        proof { lemma_flag_constants(); }
        ConfigFlags { bits: 0 }
    }

    /// The set of every named flag.
    pub fn all() -> (r: Self)
        ensures
            r@ == Self::all_bits(),
            r.valid(),
    {
        proof { lemma_flag_constants(); }
        ConfigFlags { bits: 0x0030_0033u32 }
    }

    /// The raw bits of the set.
    pub fn bits(&self) -> (r: u32)
        ensures
            r == self@,
            r & !Self::all_bits() == 0,
    {
        proof { use_type_invariant(self); lemma_within_mask(self.bits, 0x0030_0033u32); }
        self.bits
    }

    /// The set with exactly these bits, where every one of them names a flag.
    pub fn from_bits(bits: u32) -> (r: Option<Self>)
        ensures
            r is Some <==> bits & !Self::all_bits() == 0,
            r matches Some(f) ==> f@ == bits && f.valid(),
    {
        if bits & !0x0030_0033u32 == 0 {
            proof { lemma_within_mask(bits, 0x0030_0033u32); }
            Some(ConfigFlags { bits })
        } else {
            None
        }
    }

    /// The set of the named flags among these bits; the other bits are dropped.
    pub fn from_bits_truncate(bits: u32) -> (r: Self)
        ensures
            r@ == bits & Self::all_bits(),
            r.valid(),
    {
        proof { lemma_and_within(bits, 0x0030_0033u32); }
        ConfigFlags { bits: bits & 0x0030_0033u32 }
    }

    /// No flag is set.
    pub fn is_empty(&self) -> (r: bool)
        ensures
            r == (self@ == 0),
    {
        proof { use_type_invariant(self); lemma_within_mask(self.bits, 0x0030_0033u32); }
        self.bits == 0
    }

    /// Every named flag is set.
    pub fn is_all(&self) -> (r: bool)
        ensures
            r == (self@ == Self::all_bits()),
    {
        proof { use_type_invariant(self); lemma_within_mask(self.bits, 0x0030_0033u32); }
        self.bits == 0x0030_0033u32
    }

    /// The two sets share a flag.
    pub fn intersects(&self, other: Self) -> (r: bool)
        ensures
            r == (self@ & other@ != 0),
    {
        proof { use_type_invariant(self); lemma_within_mask(self.bits, 0x0030_0033u32); use_type_invariant(&other); lemma_within_mask(other.bits, 0x0030_0033u32); }
        self.bits & other.bits != 0
    }

    /// Every flag of `other` is set in `self`.
    pub fn contains(&self, other: Self) -> (r: bool)
        ensures
            r == (self@ & other@ == other@),
    {
        proof { use_type_invariant(self); lemma_within_mask(self.bits, 0x0030_0033u32); use_type_invariant(&other); lemma_within_mask(other.bits, 0x0030_0033u32); }
        self.bits & other.bits == other.bits
    }

    /// The flags set in either.
    pub fn union(self, other: Self) -> (r: Self)
        ensures
            r@ == self@ | other@,
            r.valid(),
    {
        proof {
            use_type_invariant(&self); lemma_within_mask(self.bits, 0x0030_0033u32); use_type_invariant(&other); lemma_within_mask(other.bits, 0x0030_0033u32);
            lemma_or_within(self.bits, other.bits, 0x0030_0033u32);
            lemma_within_mask(self.bits | other.bits, 0x0030_0033u32);
        }
        ConfigFlags { bits: self.bits | other.bits }
    }

    /// The flags set in both.
    pub fn intersection(self, other: Self) -> (r: Self)
        ensures
            r@ == self@ & other@,
            r.valid(),
    {
        proof {
            use_type_invariant(&self); lemma_within_mask(self.bits, 0x0030_0033u32); use_type_invariant(&other); lemma_within_mask(other.bits, 0x0030_0033u32);
            lemma_and_within_both(self.bits, other.bits, 0x0030_0033u32);
            lemma_within_mask(self.bits & other.bits, 0x0030_0033u32);
        }
        ConfigFlags { bits: self.bits & other.bits }
    }

    /// The flags set in `self` and not in `other`.
    pub fn difference(self, other: Self) -> (r: Self)
        ensures
            r@ == self@ & !other@,
            r.valid(),
    {
        proof {
            use_type_invariant(&self); lemma_within_mask(self.bits, 0x0030_0033u32); use_type_invariant(&other); lemma_within_mask(other.bits, 0x0030_0033u32);
            lemma_and_within_both(self.bits, !other.bits, 0x0030_0033u32);
            lemma_within_mask(self.bits & !other.bits, 0x0030_0033u32);
        }
        ConfigFlags { bits: self.bits & !other.bits }
    }

    /// The named flags not set in `self`.
    pub fn complement(self) -> (r: Self)
        ensures
            r@ == !self@ & Self::all_bits(),
            r.valid(),
    {
        proof {
            use_type_invariant(&self); lemma_within_mask(self.bits, 0x0030_0033u32);
            lemma_and_within(!self.bits, 0x0030_0033u32);
        }
        ConfigFlags { bits: !self.bits & 0x0030_0033u32 }
    }

    /// Sets the flags of `other`.
    pub fn insert(&mut self, other: Self)
        ensures
            final(self)@ == old(self)@ | other@,
            final(self).valid(),
    {
        *self = self.union(other);
    }

    /// Clears the flags of `other`.
    pub fn remove(&mut self, other: Self)
        ensures
            final(self)@ == old(self)@ & !other@,
            final(self).valid(),
    {
        *self = self.difference(other);
    }

    /// Flips the flags of `other`.
    pub fn toggle(&mut self, other: Self)
        ensures
            final(self)@ == old(self)@ ^ other@,
            final(self).valid(),
    {
        proof {
            use_type_invariant(&*self); lemma_within_mask(self.bits, 0x0030_0033u32); use_type_invariant(&other); lemma_within_mask(other.bits, 0x0030_0033u32);
            lemma_xor_within(self.bits, other.bits, 0x0030_0033u32);
            lemma_within_mask(self.bits ^ other.bits, 0x0030_0033u32);
        }
        *self = ConfigFlags { bits: self.bits ^ other.bits };
    }

    /// Sets the flags of `other` when `value` holds, clears them otherwise.
    pub fn set(&mut self, other: Self, value: bool)
        ensures
            value ==> final(self)@ == old(self)@ | other@,
            !value ==> final(self)@ == old(self)@ & !other@,
            final(self).valid(),
    {
        if value {
            self.insert(other);
        } else {
            self.remove(other);
        }
    }
}

/// Backend capabilities
#[derive(Clone, Copy, Debug, PartialEq, Eq, Structural, Hash)]
pub struct BackendFlags {
    bits: u32,
}

impl View for BackendFlags {
    type V = u32;

    /// The bits of the set.
    closed spec fn view(&self) -> u32 {
        self.bits
    }
}

impl BackendFlags {
    /// Every bit that names a flag of this set.
    pub open spec fn all_bits() -> u32 {
        0x0000_000fu32
    }

    #[verifier::type_invariant]
    spec fn known_bits_only(self) -> bool {
        self.bits & !0x0000_000fu32 == 0
    }

    /// The bits name flags of this set only, as they do for every set that
    /// the functions of this type give.
    pub open spec fn valid(self) -> bool {
        self@ & !Self::all_bits() == 0
    }

    /// A set is determined by its bits.
    pub broadcast proof fn lemma_view_injective(a: Self, b: Self)
        ensures
            #![trigger a@, b@]
            a@ == b@ ==> a == b,
    {
    }

    /// The bits of a valid set name flags only, so rebuilding the set from
    /// them, truncated or not, gives the same bits.
    pub proof fn lemma_bits_roundtrip(f: Self)
        requires
            f.valid(),
        ensures
            f@ & Self::all_bits() == f@,
    {
        lemma_within_mask(f@, 0x0000_000fu32);
    }

    /// Backend supports gamepad and currently has one connected
    #[allow(non_snake_case)]
    pub fn HAS_GAMEPAD() -> (r: Self)
        ensures
            r@ == 0x0000_0001u32,
            r.valid(),
    {
        proof { lemma_flag_constants(); }
        BackendFlags { bits: 0x0000_0001u32 }
    }

    /// Backend supports honoring `get_mouse_cursor` value to change the OS cursor shape
    #[allow(non_snake_case)]
    pub fn HAS_MOUSE_CURSORS() -> (r: Self)
        ensures
            r@ == 0x0000_0002u32,
            r.valid(),
    {
        proof { lemma_flag_constants(); }
        BackendFlags { bits: 0x0000_0002u32 }
    }

    /// Backend supports `io.want_set_mouse_pos` requests to reposition the OS mouse position.
    #[allow(non_snake_case)]
    pub fn HAS_SET_MOUSE_POS() -> (r: Self)
        ensures
            r@ == 0x0000_0004u32,
            r.valid(),
    {
        proof { lemma_flag_constants(); }
        BackendFlags { bits: 0x0000_0004u32 }
    }

    /// Backend renderer supports DrawCmd::vtx_offset.
    #[allow(non_snake_case)]
    pub fn RENDERER_HAS_VTX_OFFSET() -> (r: Self)
        ensures
            r@ == 0x0000_0008u32,
            r.valid(),
    {
        proof { lemma_flag_constants(); }
        BackendFlags { bits: 0x0000_0008u32 }
    }

    /// The empty set.
    pub fn empty() -> (r: Self)
        ensures
            r@ == 0,
            r.valid(),
    {
        proof { lemma_flag_constants(); }
        BackendFlags { bits: 0 }
    }

    /// The set of every named flag.
    pub fn all() -> (r: Self)
        ensures
            r@ == Self::all_bits(),
            r.valid(),
    {
        proof { lemma_flag_constants(); }
        BackendFlags { bits: 0x0000_000fu32 }
    }

    /// The raw bits of the set.
    pub fn bits(&self) -> (r: u32)
        ensures
            r == self@,
            r & !Self::all_bits() == 0,
    {
        proof { use_type_invariant(self); lemma_within_mask(self.bits, 0x0000_000fu32); }
        self.bits
    }

    /// The set with exactly these bits, where every one of them names a flag.
    pub fn from_bits(bits: u32) -> (r: Option<Self>)
        ensures
            r is Some <==> bits & !Self::all_bits() == 0,
            r matches Some(f) ==> f@ == bits && f.valid(),
    {
        if bits & !0x0000_000fu32 == 0 {
            proof { lemma_within_mask(bits, 0x0000_000fu32); }
            Some(BackendFlags { bits })
        } else {
            None
        }
    }

    /// The set of the named flags among these bits; the other bits are dropped.
    pub fn from_bits_truncate(bits: u32) -> (r: Self)
        ensures
            r@ == bits & Self::all_bits(),
            r.valid(),
    {
        proof { lemma_and_within(bits, 0x0000_000fu32); }
        BackendFlags { bits: bits & 0x0000_000fu32 }
    }

    /// No flag is set.
    pub fn is_empty(&self) -> (r: bool)
        ensures
            r == (self@ == 0),
    {
        proof { use_type_invariant(self); lemma_within_mask(self.bits, 0x0000_000fu32); }
        self.bits == 0
    }

    /// Every named flag is set.
    pub fn is_all(&self) -> (r: bool)
        ensures
            r == (self@ == Self::all_bits()),
    {
        proof { use_type_invariant(self); lemma_within_mask(self.bits, 0x0000_000fu32); }
        self.bits == 0x0000_000fu32
    }

    /// The two sets share a flag.
    pub fn intersects(&self, other: Self) -> (r: bool)
        ensures
            r == (self@ & other@ != 0),
    {
        proof { use_type_invariant(self); lemma_within_mask(self.bits, 0x0000_000fu32); use_type_invariant(&other); lemma_within_mask(other.bits, 0x0000_000fu32); }
        self.bits & other.bits != 0
    }

    /// Every flag of `other` is set in `self`.
    pub fn contains(&self, other: Self) -> (r: bool)
        ensures
            r == (self@ & other@ == other@),
    {
        proof { use_type_invariant(self); lemma_within_mask(self.bits, 0x0000_000fu32); use_type_invariant(&other); lemma_within_mask(other.bits, 0x0000_000fu32); }
        self.bits & other.bits == other.bits
    }

    /// The flags set in either.
    pub fn union(self, other: Self) -> (r: Self)
        ensures
            r@ == self@ | other@,
            r.valid(),
    {
        proof {
            use_type_invariant(&self); lemma_within_mask(self.bits, 0x0000_000fu32); use_type_invariant(&other); lemma_within_mask(other.bits, 0x0000_000fu32);
            lemma_or_within(self.bits, other.bits, 0x0000_000fu32);
            lemma_within_mask(self.bits | other.bits, 0x0000_000fu32);
        }
        BackendFlags { bits: self.bits | other.bits }
    }

    /// The flags set in both.
    pub fn intersection(self, other: Self) -> (r: Self)
        ensures
            r@ == self@ & other@,
            r.valid(),
    {
        proof {
            use_type_invariant(&self); lemma_within_mask(self.bits, 0x0000_000fu32); use_type_invariant(&other); lemma_within_mask(other.bits, 0x0000_000fu32);
            lemma_and_within_both(self.bits, other.bits, 0x0000_000fu32);
            lemma_within_mask(self.bits & other.bits, 0x0000_000fu32);
        }
        BackendFlags { bits: self.bits & other.bits }
    }

    /// The flags set in `self` and not in `other`.
    pub fn difference(self, other: Self) -> (r: Self)
        ensures
            r@ == self@ & !other@,
            r.valid(),
    {
        proof {
            use_type_invariant(&self); lemma_within_mask(self.bits, 0x0000_000fu32); use_type_invariant(&other); lemma_within_mask(other.bits, 0x0000_000fu32);
            lemma_and_within_both(self.bits, !other.bits, 0x0000_000fu32);
            lemma_within_mask(self.bits & !other.bits, 0x0000_000fu32);
        }
        BackendFlags { bits: self.bits & !other.bits }
    }

    /// The named flags not set in `self`.
    pub fn complement(self) -> (r: Self)
        ensures
            r@ == !self@ & Self::all_bits(),
            r.valid(),
    {
        proof {
            use_type_invariant(&self); lemma_within_mask(self.bits, 0x0000_000fu32);
            lemma_and_within(!self.bits, 0x0000_000fu32);
        }
        BackendFlags { bits: !self.bits & 0x0000_000fu32 }
    }

    /// Sets the flags of `other`.
    pub fn insert(&mut self, other: Self)
        ensures
            final(self)@ == old(self)@ | other@,
            final(self).valid(),
    {
        *self = self.union(other);
    }

    /// Clears the flags of `other`.
    pub fn remove(&mut self, other: Self)
        ensures
            final(self)@ == old(self)@ & !other@,
            final(self).valid(),
    {
        *self = self.difference(other);
    }

    /// Flips the flags of `other`.
    pub fn toggle(&mut self, other: Self)
        ensures
            final(self)@ == old(self)@ ^ other@,
            final(self).valid(),
    {
        proof {
            use_type_invariant(&*self); lemma_within_mask(self.bits, 0x0000_000fu32); use_type_invariant(&other); lemma_within_mask(other.bits, 0x0000_000fu32);
            lemma_xor_within(self.bits, other.bits, 0x0000_000fu32);
            lemma_within_mask(self.bits ^ other.bits, 0x0000_000fu32);
        }
        *self = BackendFlags { bits: self.bits ^ other.bits };
    }

    /// Sets the flags of `other` when `value` holds, clears them otherwise.
    pub fn set(&mut self, other: Self, value: bool)
        ensures
            value ==> final(self)@ == old(self)@ | other@,
            !value ==> final(self)@ == old(self)@ & !other@,
            final(self).valid(),
    {
        if value {
            self.insert(other);
        } else {
            self.remove(other);
        }
    }
}

/// Font atlas configuration flags
#[derive(Clone, Copy, Debug, PartialEq, Eq, Structural, Hash)]
pub struct FontAtlasFlags {
    bits: u32,
}

impl View for FontAtlasFlags {
    type V = u32;

    /// The bits of the set.
    closed spec fn view(&self) -> u32 {
        self.bits
    }
}

impl FontAtlasFlags {
    /// Every bit that names a flag of this set.
    pub open spec fn all_bits() -> u32 {
        0x0000_0007u32
    }

    #[verifier::type_invariant]
    spec fn known_bits_only(self) -> bool {
        self.bits & !0x0000_0007u32 == 0
    }

    /// The bits name flags of this set only, as they do for every set that
    /// the functions of this type give.
    pub open spec fn valid(self) -> bool {
        self@ & !Self::all_bits() == 0
    }

    /// A set is determined by its bits.
    pub broadcast proof fn lemma_view_injective(a: Self, b: Self)
        ensures
            #![trigger a@, b@]
            a@ == b@ ==> a == b,
    {
    }

    /// The bits of a valid set name flags only, so rebuilding the set from
    /// them, truncated or not, gives the same bits.
    pub proof fn lemma_bits_roundtrip(f: Self)
        requires
            f.valid(),
        ensures
            f@ & Self::all_bits() == f@,
    {
        lemma_within_mask(f@, 0x0000_0007u32);
    }

    /// Don't round the height to next power of two
    #[allow(non_snake_case)]
    pub fn NO_POWER_OF_TWO_HEIGHT() -> (r: Self)
        ensures
            r@ == 0x0000_0001u32,
            r.valid(),
    {
        proof { lemma_flag_constants(); }
        FontAtlasFlags { bits: 0x0000_0001u32 }
    }

    /// Don't build software mouse cursors into the atlas
    #[allow(non_snake_case)]
    pub fn NO_MOUSE_CURSORS() -> (r: Self)
        ensures
            r@ == 0x0000_0002u32,
            r.valid(),
    {
        proof { lemma_flag_constants(); }
        FontAtlasFlags { bits: 0x0000_0002u32 }
    }

    /// Don't build thick line textures into the atlas
    #[allow(non_snake_case)]
    pub fn NO_BAKED_LINES() -> (r: Self)
        ensures
            r@ == 0x0000_0004u32,
            r.valid(),
    {
        proof { lemma_flag_constants(); }
        FontAtlasFlags { bits: 0x0000_0004u32 }
    }

    /// The empty set.
    pub fn empty() -> (r: Self)
        ensures
            r@ == 0,
            r.valid(),
    {
        proof { lemma_flag_constants(); }
        FontAtlasFlags { bits: 0 }
    }

    /// The set of every named flag.
    pub fn all() -> (r: Self)
        ensures
            r@ == Self::all_bits(),
            r.valid(),
    {
        proof { lemma_flag_constants(); }
        FontAtlasFlags { bits: 0x0000_0007u32 }
    }

    /// The raw bits of the set.
    pub fn bits(&self) -> (r: u32)
        ensures
            r == self@,
            r & !Self::all_bits() == 0,
    {
        proof { use_type_invariant(self); lemma_within_mask(self.bits, 0x0000_0007u32); }
        self.bits
    }

    /// The set with exactly these bits, where every one of them names a flag.
    pub fn from_bits(bits: u32) -> (r: Option<Self>)
        ensures
            r is Some <==> bits & !Self::all_bits() == 0,
            r matches Some(f) ==> f@ == bits && f.valid(),
    {
        if bits & !0x0000_0007u32 == 0 {
            proof { lemma_within_mask(bits, 0x0000_0007u32); }
            Some(FontAtlasFlags { bits })
        } else {
            None
        }
    }

    /// The set of the named flags among these bits; the other bits are dropped.
    pub fn from_bits_truncate(bits: u32) -> (r: Self)
        ensures
            r@ == bits & Self::all_bits(),
            r.valid(),
    {
        proof { lemma_and_within(bits, 0x0000_0007u32); }
        FontAtlasFlags { bits: bits & 0x0000_0007u32 }
    }

    /// No flag is set.
    pub fn is_empty(&self) -> (r: bool)
        ensures
            r == (self@ == 0),
    {
        proof { use_type_invariant(self); lemma_within_mask(self.bits, 0x0000_0007u32); }
        self.bits == 0
    }

    /// Every named flag is set.
    pub fn is_all(&self) -> (r: bool)
        ensures
            r == (self@ == Self::all_bits()),
    {
        proof { use_type_invariant(self); lemma_within_mask(self.bits, 0x0000_0007u32); }
        self.bits == 0x0000_0007u32
    }

    /// The two sets share a flag.
    pub fn intersects(&self, other: Self) -> (r: bool)
        ensures
            r == (self@ & other@ != 0),
    {
        proof { use_type_invariant(self); lemma_within_mask(self.bits, 0x0000_0007u32); use_type_invariant(&other); lemma_within_mask(other.bits, 0x0000_0007u32); }
        self.bits & other.bits != 0
    }

    /// Every flag of `other` is set in `self`.
    pub fn contains(&self, other: Self) -> (r: bool)
        ensures
            r == (self@ & other@ == other@),
    {
        proof { use_type_invariant(self); lemma_within_mask(self.bits, 0x0000_0007u32); use_type_invariant(&other); lemma_within_mask(other.bits, 0x0000_0007u32); }
        self.bits & other.bits == other.bits
    }

    /// The flags set in either.
    pub fn union(self, other: Self) -> (r: Self)
        ensures
            r@ == self@ | other@,
            r.valid(),
    {
        proof {
            use_type_invariant(&self); lemma_within_mask(self.bits, 0x0000_0007u32); use_type_invariant(&other); lemma_within_mask(other.bits, 0x0000_0007u32);
            lemma_or_within(self.bits, other.bits, 0x0000_0007u32);
            lemma_within_mask(self.bits | other.bits, 0x0000_0007u32);
        }
        FontAtlasFlags { bits: self.bits | other.bits }
    }

    /// The flags set in both.
    pub fn intersection(self, other: Self) -> (r: Self)
        ensures
            r@ == self@ & other@,
            r.valid(),
    {
        proof {
            use_type_invariant(&self); lemma_within_mask(self.bits, 0x0000_0007u32); use_type_invariant(&other); lemma_within_mask(other.bits, 0x0000_0007u32);
            lemma_and_within_both(self.bits, other.bits, 0x0000_0007u32);
            lemma_within_mask(self.bits & other.bits, 0x0000_0007u32);
        }
        FontAtlasFlags { bits: self.bits & other.bits }
    }

    /// The flags set in `self` and not in `other`.
    pub fn difference(self, other: Self) -> (r: Self)
        ensures
            r@ == self@ & !other@,
            r.valid(),
    {
        proof {
            use_type_invariant(&self); lemma_within_mask(self.bits, 0x0000_0007u32); use_type_invariant(&other); lemma_within_mask(other.bits, 0x0000_0007u32);
            lemma_and_within_both(self.bits, !other.bits, 0x0000_0007u32);
            lemma_within_mask(self.bits & !other.bits, 0x0000_0007u32);
        }
        FontAtlasFlags { bits: self.bits & !other.bits }
    }

    /// The named flags not set in `self`.
    pub fn complement(self) -> (r: Self)
        ensures
            r@ == !self@ & Self::all_bits(),
            r.valid(),
    {
        proof {
            use_type_invariant(&self); lemma_within_mask(self.bits, 0x0000_0007u32);
            lemma_and_within(!self.bits, 0x0000_0007u32);
        }
        FontAtlasFlags { bits: !self.bits & 0x0000_0007u32 }
    }

    /// Sets the flags of `other`.
    pub fn insert(&mut self, other: Self)
        ensures
            final(self)@ == old(self)@ | other@,
            final(self).valid(),
    {
        *self = self.union(other);
    }

    /// Clears the flags of `other`.
    pub fn remove(&mut self, other: Self)
        ensures
            final(self)@ == old(self)@ & !other@,
            final(self).valid(),
    {
        *self = self.difference(other);
    }

    /// Flips the flags of `other`.
    pub fn toggle(&mut self, other: Self)
        ensures
            final(self)@ == old(self)@ ^ other@,
            final(self).valid(),
    {
        proof {
            use_type_invariant(&*self); lemma_within_mask(self.bits, 0x0000_0007u32); use_type_invariant(&other); lemma_within_mask(other.bits, 0x0000_0007u32);
            lemma_xor_within(self.bits, other.bits, 0x0000_0007u32);
            lemma_within_mask(self.bits ^ other.bits, 0x0000_0007u32);
        }
        *self = FontAtlasFlags { bits: self.bits ^ other.bits };
    }

    /// Sets the flags of `other` when `value` holds, clears them otherwise.
    pub fn set(&mut self, other: Self, value: bool)
        ensures
            value ==> final(self)@ == old(self)@ | other@,
            !value ==> final(self)@ == old(self)@ & !other@,
            final(self).valid(),
    {
        if value {
            self.insert(other);
        } else {
            self.remove(other);
        }
    }
}

} // verus!
