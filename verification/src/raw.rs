//! Plain-value model of the dear imgui C structures that the wrappers of this
//! crate read and write. Field names follow the C++ names.
//!
//! Floating-point fields are carried as their IEEE-754 bit patterns
//! ([`F32Bits`]): the wrappers only copy them, so no arithmetic is lost.

use vstd::prelude::*;

use crate::fonts::glyph_ranges::FontGlyphRanges;

verus! {

/// A single-precision float held by its bit pattern, as `f32::to_bits` gives it.
#[derive(Clone, Copy, Debug, PartialEq, Eq, Structural, Hash)]
pub struct F32Bits(pub u32);

/// `ImVec2`: a pair of floats.
#[derive(Clone, Copy, Debug, PartialEq, Eq, Structural, Hash)]
pub struct ImVec2 {
    pub x: F32Bits,
    pub y: F32Bits,
}

/// `ImGuiIO`: the fields of the IO block that this crate reads or writes.
/// C string fields are held by their address.
#[allow(non_snake_case)]
#[derive(Clone, Copy, Debug)]
pub struct ImGuiIO {
    pub ConfigFlags: i32,
    pub BackendFlags: i32,
    pub DisplaySize: ImVec2,
    pub DeltaTime: F32Bits,
    pub BackendPlatformName: usize,
    pub BackendRendererName: usize,
    pub MousePos: ImVec2,
    pub MouseDown: [bool; 5],
    pub MouseWheel: F32Bits,
    pub MouseWheelH: F32Bits,
    pub KeyCtrl: bool,
    pub KeyShift: bool,
    pub KeyAlt: bool,
    pub KeySuper: bool,
    pub WantCaptureMouse: bool,
    pub WantCaptureKeyboard: bool,
    pub WantTextInput: bool,
    pub Framerate: F32Bits,
    pub MouseDelta: ImVec2,
}

/// `ImFontConfig`: the configuration handed to the atlas when adding a font.
/// The font data is held by the buffer that the atlas takes over. The glyph
/// ranges are held by the set they stand for: `None` is the null pointer, and
/// `Some(r)` points at dear imgui's table for `r` in the atlas.
#[allow(non_snake_case)]
#[derive(Clone, Debug)]
pub struct ImFontConfig {
    pub FontData: Vec<u8>,
    pub FontDataSize: i32,
    pub FontDataOwnedByAtlas: bool,
    pub MergeMode: bool,
    pub PixelSnapH: bool,
    pub OversampleH: i8,
    pub OversampleV: i8,
    pub EllipsisChar: u16,
    pub SizePixels: F32Bits,
    pub GlyphOffset: ImVec2,
    pub GlyphExtraAdvanceX: F32Bits,
    pub GlyphMinAdvanceX: F32Bits,
    pub GlyphMaxAdvanceX: F32Bits,
    pub GlyphRanges: Option<FontGlyphRanges>,
    pub FontLoaderFlags: u32,
    pub RasterizerMultiply: F32Bits,
    pub RasterizerDensity: F32Bits,
    pub Name: [u8; 40],
}

/// The value of an [`ImFontConfig`], with its buffers as sequences.
#[allow(non_snake_case)]
pub struct ImFontConfigView {
    pub FontData: Seq<u8>,
    pub FontDataSize: i32,
    pub FontDataOwnedByAtlas: bool,
    pub MergeMode: bool,
    pub PixelSnapH: bool,
    pub OversampleH: i8,
    pub OversampleV: i8,
    pub EllipsisChar: u16,
    pub SizePixels: F32Bits,
    pub GlyphOffset: ImVec2,
    pub GlyphExtraAdvanceX: F32Bits,
    pub GlyphMinAdvanceX: F32Bits,
    pub GlyphMaxAdvanceX: F32Bits,
    pub GlyphRanges: Option<FontGlyphRanges>,
    pub FontLoaderFlags: u32,
    pub RasterizerMultiply: F32Bits,
    pub RasterizerDensity: F32Bits,
    pub Name: Seq<u8>,
}

impl View for ImFontConfig {
    type V = ImFontConfigView;

    open spec fn view(&self) -> ImFontConfigView {
        ImFontConfigView {
            FontData: self.FontData@,
            FontDataSize: self.FontDataSize,
            FontDataOwnedByAtlas: self.FontDataOwnedByAtlas,
            MergeMode: self.MergeMode,
            PixelSnapH: self.PixelSnapH,
            OversampleH: self.OversampleH,
            OversampleV: self.OversampleV,
            EllipsisChar: self.EllipsisChar,
            SizePixels: self.SizePixels,
            GlyphOffset: self.GlyphOffset,
            GlyphExtraAdvanceX: self.GlyphExtraAdvanceX,
            GlyphMinAdvanceX: self.GlyphMinAdvanceX,
            GlyphMaxAdvanceX: self.GlyphMaxAdvanceX,
            GlyphRanges: self.GlyphRanges,
            FontLoaderFlags: self.FontLoaderFlags,
            RasterizerMultiply: self.RasterizerMultiply,
            RasterizerDensity: self.RasterizerDensity,
            Name: self.Name@,
        }
    }
}

/// `ImFontAtlas`: the fonts of the atlas, each held by its address.
#[allow(non_snake_case)]
#[derive(Clone, Debug)]
pub struct ImFontAtlas {
    pub Fonts: Vec<usize>,
}

} // verus!
