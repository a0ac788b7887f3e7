use vstd::prelude::*;

use std::rc::Rc;

use crate::fonts::font::Font;
use crate::fonts::glyph_ranges::FontGlyphRanges;
use crate::raw::{F32Bits, ImFontAtlas, ImFontConfig, ImFontConfigView, ImVec2};
use vstd::slice::slice_to_vec;
use vstd::string::StringSliceAdditionalSpecFns;
use vstd::utf8::{
    decode_utf8, decode_utf8_split, encode_utf8, encode_utf8_decode_utf8, encode_utf8_valid_utf8,
    is_char_boundary, is_char_boundary_start_end_of_seq, valid_utf8, valid_utf8_split,
};

pub use crate::flags::FontAtlasFlags;

verus! {

/// A font identifier
#[derive(Copy, Clone, Debug, Eq, PartialEq, Structural)]
pub struct FontId(pub(crate) usize);

impl View for FontId {
    type V = usize;

    /// The address of the font in its atlas.
    closed spec fn view(&self) -> usize {
        self.0
    }
}

impl FontId {
    /// An identifier is determined by the address it names.
    pub broadcast proof fn lemma_view_injective(a: FontId, b: FontId)
        ensures
            #![trigger a@, b@]
            a@ == b@ ==> a == b,
    {
    }

    /// The identifier of the font kept at this address.
    pub(crate) fn at(address: usize) -> (r: FontId)
        ensures
            r@ == address,
    {
        FontId(address)
    }
}

/// A font atlas that builds a single texture.
///
/// Newtype over [`ImFontAtlas`]; its fields are reached through `.0`.
pub struct FontAtlas(pub ImFontAtlas);

impl core::ops::Deref for FontAtlas {
    type Target = ImFontAtlas;

    fn deref(&self) -> (r: &ImFontAtlas)
        ensures
            *r == self.0,
    {
        &self.0
    }
}

impl core::ops::DerefMut for FontAtlas {
    fn deref_mut(&mut self) -> (r: &mut ImFontAtlas)
        ensures
            *r == old(self).0,
            final(self).0 == *final(r),
    {
        &mut self.0
    }
}

/// A font to add to an atlas: its configuration, and whether it is the
/// built-in default font (`AddFontDefault`) or the font data that the
/// configuration holds (`AddFont`).
#[derive(Clone, Debug)]
pub struct FontRequest {
    pub default_font: bool,
    pub config: ImFontConfig,
}

impl FontAtlas {
    /// The atlas holds a font at this address: `get_font` finds exactly these.
    pub open spec fn holds_font(self, address: usize) -> bool {
        self.0.Fonts@.contains(address)
    }

    /// The identifiers of the fonts of the atlas, in the atlas's order.
    pub fn fonts(&self) -> (r: Vec<FontId>)
        ensures
            r@.len() == self.0.Fonts@.len(),
            forall|i: int| 0 <= i < r@.len() ==> #[trigger] r@[i]@ == self.0.Fonts@[i],
    {
        let mut result: Vec<FontId> = Vec::new();
        let n = self.0.Fonts.len();
        for i in 0..n
            invariant
                n == self.0.Fonts@.len(),
                result@.len() == i,
                forall|j: int| 0 <= j < i ==> #[trigger] result@[j]@ == self.0.Fonts@[j],
        {
            result.push(FontId(self.0.Fonts[i]));
        }
        result
    }

    /// The font of the atlas with this identifier, if the atlas holds it.
    pub fn get_font(&self, id: FontId) -> (r: Option<Font>)
        ensures
            r is Some <==> self.holds_font(id@),
            r matches Some(f) ==> f.address() == id@,
    {
        let n = self.0.Fonts.len();
        for i in 0..n
            invariant
                n == self.0.Fonts@.len(),
                forall|j: int| 0 <= j < i ==> self.0.Fonts@[j] != id@,
        {
            let font = self.0.Fonts[i];
            if id == FontId(font) {
                return Some(Font::at(font));
            }
        }
        None
    }

    /// The request that adds one font source to the atlas, merged into the
    /// previous font when `merge_mode` holds.
    pub fn font_request(font_source: &FontSource, merge_mode: bool) -> (r: FontRequest)
        ensures
            r.default_font == (*font_source is DefaultFontData),
            r.config@ == raw_config_for(*font_source, merge_mode),
            r.config.MergeMode == merge_mode,
            *font_source matches FontSource::DefaultFontData { config: Some(cfg) } ==> r.config@
                == applied_config(cfg, ImFontConfigView { MergeMode: merge_mode, ..default_raw_config() }),
            *font_source matches FontSource::DefaultFontData { config: None } ==> r.config@
                == (ImFontConfigView { MergeMode: merge_mode, ..default_raw_config() }),
            *font_source matches FontSource::TtfData { data, size_pixels, .. } ==> {
                &&& r.config.FontData@ == data@
                &&& r.config.FontDataSize == (data@.len() as int) as i32
                &&& r.config.FontDataOwnedByAtlas
                &&& r.config.SizePixels == size_pixels
            },
    {
        let mut raw_config = sys_font_config_default();
        raw_config.MergeMode = merge_mode;
        match font_source {
            FontSource::DefaultFontData { config } => {
                if let Some(config) = config {
                    config.apply_to_raw_config(&mut raw_config);
                }
                FontRequest { default_font: true, config: raw_config }
            },
            FontSource::TtfData { data, size_pixels, config } => {
                if let Some(config) = config {
                    config.apply_to_raw_config(&mut raw_config);
                }
                // The atlas may outlive `data`, so it takes over a copy.
                raw_config.FontData = slice_to_vec(data);
                raw_config.FontDataSize = #[verifier::truncate] (data.len() as i32);
                raw_config.FontDataOwnedByAtlas = true;
                raw_config.SizePixels = *size_pixels;
                FontRequest { default_font: false, config: raw_config }
            },
        }
    }

    /// The requests that add a font made of these sources, in order: the
    /// first source starts the font and every later one is merged into it.
    pub fn font_requests(font_sources: &[FontSource]) -> (r: Vec<FontRequest>)
        requires
            font_sources@.len() > 0,
        ensures
            r@.len() == font_sources@.len(),
            forall|i: int|
                0 <= i < r@.len() ==> {
                    &&& (#[trigger] r@[i]).default_font == (font_sources@[i] is DefaultFontData)
                    &&& r@[i].config@ == raw_config_for(font_sources@[i], i > 0)
                    &&& r@[i].config@.MergeMode == (i > 0)
                },
    {
        let mut requests: Vec<FontRequest> = Vec::new();
        let head = FontAtlas::font_request(&font_sources[0], false);
        proof { lemma_raw_config_merge_mode(font_sources@[0], false); }
        requests.push(head);
        let n = font_sources.len();
        for i in 1..n
            invariant
                n == font_sources@.len(),
                requests@.len() == i,
                forall|j: int|
                    0 <= j < i ==> {
                        &&& (#[trigger] requests@[j]).default_font == (font_sources@[j] is DefaultFontData)
                        &&& requests@[j].config@ == raw_config_for(font_sources@[j], j > 0)
                        &&& requests@[j].config@.MergeMode == (j > 0)
                    },
        {
            let request = FontAtlas::font_request(&font_sources[i], true);
            proof { lemma_raw_config_merge_mode(font_sources@[i as int], true); }
            requests.push(request);
        }
        requests
    }
}

/// A source for binary font data
#[derive(Clone, Debug)]
pub enum FontSource<'a> {
    /// Default font included with the library (ProggyClean.ttf)
    DefaultFontData { config: Option<FontConfig> },
    /// Binary TTF/OTF font data
    TtfData { data: &'a [u8], size_pixels: F32Bits, config: Option<FontConfig> },
}

/// Configuration settings for a font
#[derive(Clone, Debug)]
pub struct FontConfig {
    /// Size in pixels for the rasterizer
    pub size_pixels: F32Bits,
    /// Horizontal oversampling
    pub oversample_h: i32,
    /// Vertical oversampling
    pub oversample_v: i32,
    /// Align every glyph to pixel boundary
    pub pixel_snap_h: bool,
    /// Extra spacing (in pixels) between glyphs
    pub glyph_extra_spacing: [F32Bits; 2],
    /// Offset for all glyphs in this font
    pub glyph_offset: [F32Bits; 2],
    /// Unicode ranges to use from this font
    pub glyph_ranges: FontGlyphRanges,
    /// Minimum advance_x for glyphs
    pub glyph_min_advance_x: F32Bits,
    /// Maximum advance_x for glyphs
    pub glyph_max_advance_x: F32Bits,
    /// Settings for a custom font rasterizer if used
    pub font_builder_flags: u32,
    /// Brighten (>1.0) or darken (<1.0) font output
    pub rasterizer_multiply: F32Bits,
    /// DPI scale for rasterization, not altering other font metrics:
    /// make it easy to swap between e.g. a 100% and a 400% fonts for a zooming display.
    /// IMPORTANT: If you increase this it is expected that you increase font scale
    /// accordingly, otherwise quality may look lowered.
    pub rasterizer_density: F32Bits,
    /// Explicitly specify the ellipsis character.
    ///
    /// With multiple font sources the first specified ellipsis is used.
    pub ellipsis_char: Option<char>,
    pub name: Option<String>,
}

/// The bit pattern of `0.0f32`.
pub open spec fn f32_zero() -> F32Bits {
    F32Bits(0)
}

/// The bit pattern of `1.0f32`.
pub open spec fn f32_one() -> F32Bits {
    F32Bits(0x3f80_0000)
}

/// The bit pattern of `f32::MAX`.
pub open spec fn f32_max() -> F32Bits {
    F32Bits(0x7f7f_ffff)
}

/// The settings of [`FontConfig::default`].
pub open spec fn default_font_config() -> FontConfig {
    FontConfig {
        size_pixels: f32_zero(),
        oversample_h: 0,
        oversample_v: 0,
        pixel_snap_h: false,
        glyph_extra_spacing: [f32_zero(), f32_zero()],
        glyph_offset: [f32_zero(), f32_zero()],
        glyph_ranges: FontGlyphRanges::spec_default(),
        glyph_min_advance_x: f32_zero(),
        glyph_max_advance_x: f32_max(),
        font_builder_flags: 0,
        rasterizer_multiply: f32_one(),
        rasterizer_density: f32_one(),
        ellipsis_char: None,
        name: None,
    }
}

impl Default for FontConfig {
    fn default() -> (r: FontConfig)
        ensures
            r == default_font_config(),
    {
        FontConfig {
            size_pixels: F32Bits(0),
            oversample_h: 0,
            oversample_v: 0,
            pixel_snap_h: false,
            glyph_extra_spacing: [F32Bits(0), F32Bits(0)],
            glyph_offset: [F32Bits(0), F32Bits(0)],
            glyph_ranges: FontGlyphRanges::default(),
            glyph_min_advance_x: F32Bits(0),
            glyph_max_advance_x: F32Bits(0x7f7f_ffff),
            font_builder_flags: 0,
            rasterizer_multiply: F32Bits(0x3f80_0000),
            rasterizer_density: F32Bits(0x3f80_0000),
            ellipsis_char: None,
            name: None,
        }
    }
}

/// The largest character boundary of `bytes` at or before `i`.
pub open spec fn boundary_at_or_before(bytes: Seq<u8>, i: int) -> int
    decreases i,
{
    if i <= 0 || is_char_boundary(bytes, i) {
        i
    } else {
        boundary_at_or_before(bytes, i - 1)
    }
}

/// How many bytes of a name's UTF-8 encoding go into the `Name` field: the
/// whole characters that fit in its first 39 bytes, the last one being NUL.
pub open spec fn name_len(name: Seq<char>) -> int {
    let bytes = encode_utf8(name);
    boundary_at_or_before(bytes, if bytes.len() < 39 { bytes.len() as int } else { 39 })
}

/// The `Name` field after a name is written into it: the bytes that fit,
/// a NUL, and the rest of the field as it was.
pub open spec fn name_field(old_field: Seq<u8>, name: Seq<char>) -> Seq<u8> {
    let n = name_len(name);
    encode_utf8(name).take(n) + seq![0u8] + old_field.skip(n + 1)
}

/// The code of the ellipsis character; `0xffff` stands for none.
pub open spec fn ellipsis_code(c: Option<char>) -> u16 {
    match c {
        Some(c) => (c as u32) as u16,
        None => 0xffff,
    }
}

/// A raw configuration after the settings of `cfg` were written into it.
pub open spec fn applied_config(cfg: FontConfig, raw: ImFontConfigView) -> ImFontConfigView {
    ImFontConfigView {
        SizePixels: cfg.size_pixels,
        OversampleH: cfg.oversample_h as i8,
        OversampleV: cfg.oversample_v as i8,
        PixelSnapH: cfg.pixel_snap_h,
        GlyphExtraAdvanceX: cfg.glyph_extra_spacing[0],
        GlyphOffset: ImVec2 { x: cfg.glyph_offset[0], y: cfg.glyph_offset[1] },
        GlyphMinAdvanceX: cfg.glyph_min_advance_x,
        GlyphMaxAdvanceX: cfg.glyph_max_advance_x,
        GlyphRanges: Some(cfg.glyph_ranges),
        FontLoaderFlags: cfg.font_builder_flags,
        RasterizerMultiply: cfg.rasterizer_multiply,
        RasterizerDensity: cfg.rasterizer_density,
        EllipsisChar: ellipsis_code(cfg.ellipsis_char),
        Name: match cfg.name {
            Some(name) => name_field(raw.Name, name@),
            None => raw.Name,
        },
        ..raw
    }
}

/// The raw configuration that dear imgui's `ImFontConfig` constructor builds.
pub open spec fn default_raw_config() -> ImFontConfigView {
    ImFontConfigView {
        FontData: Seq::empty(),
        FontDataSize: 0,
        FontDataOwnedByAtlas: true,
        MergeMode: false,
        PixelSnapH: false,
        OversampleH: 0,
        OversampleV: 0,
        EllipsisChar: 0,
        SizePixels: f32_zero(),
        GlyphOffset: ImVec2 { x: f32_zero(), y: f32_zero() },
        GlyphExtraAdvanceX: f32_zero(),
        GlyphMinAdvanceX: f32_zero(),
        GlyphMaxAdvanceX: f32_max(),
        GlyphRanges: None,
        FontLoaderFlags: 0,
        RasterizerMultiply: f32_one(),
        RasterizerDensity: f32_one(),
        Name: Seq::new(40, |i: int| 0u8),
    }
}

/// The raw configuration that adds a font source.
pub open spec fn raw_config_for(source: FontSource, merge_mode: bool) -> ImFontConfigView {
    let base = ImFontConfigView { MergeMode: merge_mode, ..default_raw_config() };
    match source {
        FontSource::DefaultFontData { config } => match config {
            Some(cfg) => applied_config(cfg, base),
            None => base,
        },
        FontSource::TtfData { data, size_pixels, config } => {
            let configured = match config {
                Some(cfg) => applied_config(cfg, base),
                None => base,
            };
            ImFontConfigView {
                FontData: data@,
                FontDataSize: (data@.len() as int) as i32,
                FontDataOwnedByAtlas: true,
                SizePixels: size_pixels,
                ..configured
            }
        },
    }
}

/// A source is merged into the previous font exactly when asked to.
pub proof fn lemma_raw_config_merge_mode(source: FontSource, merge_mode: bool)
    ensures
        raw_config_for(source, merge_mode).MergeMode == merge_mode,
{
}

/// The request for the built-in font carries the configuration it was given:
/// every raw setting comes from the matching setting of the configuration,
/// over the raw defaults with the asked merge mode and no font data. Without a
/// configuration it is the raw defaults: size 0, no oversampling, no glyph
/// ranges, no ellipsis character.
pub proof fn lemma_default_font_request_settings(config: Option<FontConfig>, merge_mode: bool)
    ensures
        ({
            let out = raw_config_for(FontSource::DefaultFontData { config }, merge_mode);
            &&& out.MergeMode == merge_mode
            &&& out.FontData == Seq::<u8>::empty()
            &&& out.FontDataSize == 0
            &&& out.FontDataOwnedByAtlas
            &&& config matches Some(cfg) ==> {
                &&& out.SizePixels == cfg.size_pixels
                &&& out.OversampleH == cfg.oversample_h as i8
                &&& out.OversampleV == cfg.oversample_v as i8
                &&& out.PixelSnapH == cfg.pixel_snap_h
                &&& out.GlyphExtraAdvanceX == cfg.glyph_extra_spacing[0]
                &&& out.GlyphOffset == (ImVec2 { x: cfg.glyph_offset[0], y: cfg.glyph_offset[1] })
                &&& out.GlyphMinAdvanceX == cfg.glyph_min_advance_x
                &&& out.GlyphMaxAdvanceX == cfg.glyph_max_advance_x
                &&& out.GlyphRanges == Some(cfg.glyph_ranges)
                &&& out.FontLoaderFlags == cfg.font_builder_flags
                &&& out.RasterizerMultiply == cfg.rasterizer_multiply
                &&& out.RasterizerDensity == cfg.rasterizer_density
                &&& cfg.ellipsis_char is None ==> out.EllipsisChar == 0xffff
                &&& cfg.ellipsis_char matches Some(c) ==> out.EllipsisChar == (c as u32) as u16
                &&& cfg.name is None ==> out.Name == Seq::new(40, |i: int| 0u8)
            }
            &&& config is None ==> {
                &&& out.SizePixels == F32Bits(0)
                &&& out.OversampleH == 0
                &&& out.OversampleV == 0
                &&& !out.PixelSnapH
                &&& out.GlyphRanges is None
                &&& out.EllipsisChar == 0
                &&& out.GlyphMaxAdvanceX == F32Bits(0x7f7f_ffff)
                &&& out.RasterizerMultiply == F32Bits(0x3f80_0000)
            }
        }),
{
}

/// A configuration reaches the request alike whether the source is the
/// built-in font or font data: the two requests differ only in the font data,
/// its length and the size in pixels that the data source names.
pub proof fn lemma_default_and_ttf_requests_agree(
    config: Option<FontConfig>,
    data: &[u8],
    size_pixels: F32Bits,
    merge_mode: bool,
)
    ensures
        raw_config_for(FontSource::TtfData { data, size_pixels, config }, merge_mode) == (ImFontConfigView {
            FontData: data@,
            FontDataSize: (data@.len() as int) as i32,
            SizePixels: size_pixels,
            ..raw_config_for(FontSource::DefaultFontData { config }, merge_mode)
        }),
{
}

/// Writing settings into a raw configuration sets every raw setting from the
/// matching setting alone, whatever the others hold, and leaves the font data,
/// its size, its owner and the merge mode as they were.
pub proof fn lemma_applied_config_fields(cfg: FontConfig, raw: ImFontConfigView)
    ensures
        ({
            let out = applied_config(cfg, raw);
            &&& out.SizePixels == cfg.size_pixels
            &&& out.OversampleH == cfg.oversample_h as i8
            &&& out.OversampleV == cfg.oversample_v as i8
            &&& out.PixelSnapH == cfg.pixel_snap_h
            &&& out.GlyphExtraAdvanceX == cfg.glyph_extra_spacing[0]
            &&& out.GlyphOffset == (ImVec2 { x: cfg.glyph_offset[0], y: cfg.glyph_offset[1] })
            &&& out.GlyphMinAdvanceX == cfg.glyph_min_advance_x
            &&& out.GlyphMaxAdvanceX == cfg.glyph_max_advance_x
            &&& out.GlyphRanges == Some(cfg.glyph_ranges)
            &&& out.FontLoaderFlags == cfg.font_builder_flags
            &&& out.RasterizerMultiply == cfg.rasterizer_multiply
            &&& out.RasterizerDensity == cfg.rasterizer_density
            &&& cfg.ellipsis_char is None ==> out.EllipsisChar == 0xffff
            &&& cfg.ellipsis_char matches Some(c) ==> out.EllipsisChar == (c as u32) as u16
            &&& cfg.name is None ==> out.Name == raw.Name
            &&& out.FontData == raw.FontData
            &&& out.FontDataSize == raw.FontDataSize
            &&& out.FontDataOwnedByAtlas == raw.FontDataOwnedByAtlas
            &&& out.MergeMode == raw.MergeMode
        }),
{
}

/// Every identifier that `fonts` lists names a font that `get_font` finds:
/// the `i`-th identifier views as the `i`-th address of the atlas, and
/// `get_font` finds exactly the addresses the atlas holds.
pub proof fn lemma_listed_fonts_are_found(atlas: FontAtlas, i: int)
    requires
        0 <= i < atlas.0.Fonts@.len(),
    ensures
        atlas.holds_font(atlas.0.Fonts@[i]),
{
}

/// The default settings agree with dear imgui's default raw configuration in
/// every field but the ellipsis character, which they leave unset, and the
/// glyph ranges, which they point at the default set.
pub proof fn lemma_default_config_matches_raw_default()
    ensures
        applied_config(default_font_config(), default_raw_config()) == (ImFontConfigView {
            EllipsisChar: 0xffff,
            GlyphRanges: Some(FontGlyphRanges::spec_default()),
            ..default_raw_config()
        }),
{
    assert(0i32 as i8 == 0i8) by (bit_vector);
}

/// What a name writes into the `Name` field: the whole characters of its
/// UTF-8 encoding that fit in 39 bytes (all of it when it fits), then a NUL,
/// the rest of the field unchanged. The bytes kept decode to a prefix of the name.
pub proof fn lemma_name_field(old_field: Seq<u8>, name: Seq<char>)
    requires
        old_field.len() == 40,
    ensures
        ({
            let bytes = encode_utf8(name);
            let n = name_len(name);
            let cap = if bytes.len() < 39 { bytes.len() as int } else { 39 };
            let field = name_field(old_field, name);
            &&& 0 <= n <= cap
            &&& is_char_boundary(bytes, n)
            &&& forall|j: int| n < j <= cap ==> !is_char_boundary(bytes, j)
            &&& bytes.len() <= 39 ==> n == bytes.len()
            &&& field.len() == 40
            &&& field.take(n) == bytes.take(n)
            &&& field[n] == 0
            &&& field.skip(n + 1) == old_field.skip(n + 1)
            &&& valid_utf8(bytes.take(n))
            &&& decode_utf8(bytes.take(n)) == name.take(decode_utf8(bytes.take(n)).len() as int)
        }),
{
    broadcast use encode_utf8_valid_utf8;

    let bytes = encode_utf8(name);
    let cap = if bytes.len() < 39 { bytes.len() as int } else { 39 };
    lemma_boundary_at_or_before(bytes, cap);
    let n = name_len(name);
    is_char_boundary_start_end_of_seq(bytes);
    let field = name_field(old_field, name);
    assert(field.take(n) =~= bytes.take(n));
    assert(field.skip(n + 1) =~= old_field.skip(n + 1));
    valid_utf8_split(bytes, n);
    decode_utf8_split(bytes, n);
    encode_utf8_decode_utf8(name);
    assert(bytes.subrange(0, n) =~= bytes.take(n));
    let prefix = decode_utf8(bytes.take(n));
    assert(name.take(prefix.len() as int) =~= prefix);
}

/// The largest character boundary at or before `i` is a boundary, and no
/// boundary lies between it and `i`.
proof fn lemma_boundary_at_or_before(bytes: Seq<u8>, i: int)
    requires
        valid_utf8(bytes),
        0 <= i <= bytes.len(),
    ensures
        0 <= boundary_at_or_before(bytes, i) <= i,
        is_char_boundary(bytes, boundary_at_or_before(bytes, i)),
        forall|j: int| boundary_at_or_before(bytes, i) < j <= i ==> !is_char_boundary(bytes, j),
    decreases i,
{
    is_char_boundary_start_end_of_seq(bytes);
    if i > 0 && !is_char_boundary(bytes, i) {
        lemma_boundary_at_or_before(bytes, i - 1);
    }
}

impl FontConfig {
    /// Writes these settings into a raw configuration.
    pub fn apply_to_raw_config(&self, raw: &mut ImFontConfig)
        ensures
            final(raw)@ == applied_config(*self, old(raw)@),
            final(raw).SizePixels == self.size_pixels,
            final(raw).OversampleH == self.oversample_h as i8,
            final(raw).OversampleV == self.oversample_v as i8,
            final(raw).PixelSnapH == self.pixel_snap_h,
            final(raw).GlyphExtraAdvanceX == self.glyph_extra_spacing[0],
            final(raw).GlyphOffset == (ImVec2 { x: self.glyph_offset[0], y: self.glyph_offset[1] }),
            final(raw).GlyphMinAdvanceX == self.glyph_min_advance_x,
            final(raw).GlyphMaxAdvanceX == self.glyph_max_advance_x,
            final(raw).GlyphRanges == Some(self.glyph_ranges),
            final(raw).FontLoaderFlags == self.font_builder_flags,
            final(raw).RasterizerMultiply == self.rasterizer_multiply,
            final(raw).RasterizerDensity == self.rasterizer_density,
            self.ellipsis_char matches Some(c) ==> final(raw).EllipsisChar == (c as u32) as u16,
            self.ellipsis_char is None ==> final(raw).EllipsisChar == 0xffff,
            self.name is None ==> final(raw).Name == old(raw).Name,
            self.name matches Some(n) ==> final(raw).Name@ == name_field(old(raw).Name@, n@),
            final(raw).FontData@ == old(raw).FontData@,
            final(raw).FontDataSize == old(raw).FontDataSize,
            final(raw).FontDataOwnedByAtlas == old(raw).FontDataOwnedByAtlas,
            final(raw).MergeMode == old(raw).MergeMode,
    {
        raw.SizePixels = self.size_pixels;
        raw.OversampleH = #[verifier::truncate] (self.oversample_h as i8);
        raw.OversampleV = #[verifier::truncate] (self.oversample_v as i8);
        raw.PixelSnapH = self.pixel_snap_h;
        // Only the X component is honored; Y is dropped.
        raw.GlyphExtraAdvanceX = self.glyph_extra_spacing[0];
        raw.GlyphOffset = ImVec2 { x: self.glyph_offset[0], y: self.glyph_offset[1] };
        raw.GlyphMinAdvanceX = self.glyph_min_advance_x;
        raw.GlyphMaxAdvanceX = self.glyph_max_advance_x;
        raw.GlyphRanges = Some(self.glyph_ranges);
        raw.FontLoaderFlags = self.font_builder_flags;
        raw.RasterizerMultiply = self.rasterizer_multiply;
        raw.RasterizerDensity = self.rasterizer_density;
        // 0xffff stands for an unset EllipsisChar
        raw.EllipsisChar = match self.ellipsis_char {
            Some(c) => #[verifier::truncate] ((c as u32) as u16),
            None => 0xffff,
        };
        if let Some(name) = &self.name {
            write_name(&mut raw.Name, name.as_str());
        }
    }
}

/// Writes the whole characters of `name` that fit into a `Name` field, then a NUL.
fn write_name(field: &mut [u8; 40], name: &str)
    ensures
        final(field)@ == name_field(old(field)@, name@),
{
    broadcast use encode_utf8_valid_utf8;

    let ghost orig = field@;
    let bytes = name.as_bytes();
    let ghost b = bytes@;
    assert(b == encode_utf8(name@));
    assert(valid_utf8(b));
    let cap: usize = if bytes.len() < 39 { bytes.len() } else { 39 };
    let mut len: usize = cap;
    assert(is_char_boundary(b, 0));
    while !name.is_char_boundary(len)
        invariant
            len <= cap,
            cap <= b.len(),
            valid_utf8(b),
            b == name.spec_bytes(),
            is_char_boundary(b, 0),
            boundary_at_or_before(b, cap as int) == boundary_at_or_before(b, len as int),
        decreases len,
    {
        len -= 1;
    }
    assert(len == name_len(name@));
    let mut i: usize = 0;
    while i < len
        invariant
            i <= len,
            len <= cap,
            cap <= 39,
            cap <= b.len(),
            b == bytes@,
            orig.len() == 40,
            field@.len() == 40,
            forall|j: int| 0 <= j < i ==> field@[j] == b[j],
            forall|j: int| i <= j < 40 ==> field@[j] == orig[j],
        decreases len - i,
    {
        field[i] = bytes[i];
        i += 1;
    }
    field[len] = 0;
    assert(field@ =~= name_field(orig, name@));
}

/// The raw font configuration that dear imgui's `ImFontConfig` constructor builds.
pub fn sys_font_config_default() -> (r: ImFontConfig)
    ensures
        r@ == default_raw_config(),
{
    let r = ImFontConfig {
        FontData: Vec::new(),
        FontDataSize: 0,
        FontDataOwnedByAtlas: true,
        MergeMode: false,
        PixelSnapH: false,
        OversampleH: 0,
        OversampleV: 0,
        EllipsisChar: 0,
        SizePixels: F32Bits(0),
        GlyphOffset: ImVec2 { x: F32Bits(0), y: F32Bits(0) },
        GlyphExtraAdvanceX: F32Bits(0),
        GlyphMinAdvanceX: F32Bits(0),
        GlyphMaxAdvanceX: F32Bits(0x7f7f_ffff),
        GlyphRanges: None,
        FontLoaderFlags: 0,
        RasterizerMultiply: F32Bits(0x3f80_0000),
        RasterizerDensity: F32Bits(0x3f80_0000),
        Name: [0u8; 40],
    };
    assert(r.Name@ =~= Seq::new(40, |i: int| 0u8));
    assert(r.FontData@ =~= Seq::<u8>::empty());
    r
}

/// Handle to a font atlas texture
#[derive(Clone, Debug)]
pub struct FontAtlasTexture<'a> {
    /// Texture width (in pixels)
    pub width: u32,
    /// Texture height (in pixels)
    pub height: u32,
    /// Raw texture data (in bytes).
    ///
    /// The format depends on which function was called to obtain this data.
    pub data: &'a [u8],
}

/// A font atlas that can be shared between contexts, held by the address of
/// the atlas that dear imgui allocated.
#[derive(Debug)]
pub struct SharedFontAtlas(pub(crate) Rc<usize>);

/// `Rc::clone`: another pointer to the same allocation, so it holds the same value.
#[verifier::external_body]
fn rc_clone(rc: &Rc<usize>) -> (r: Rc<usize>)
    ensures
        *r == **rc,
{
    Rc::clone(rc)
}

impl Clone for SharedFontAtlas {
    /// Another handle to the same atlas.
    fn clone(&self) -> (r: SharedFontAtlas)
        ensures
            r.address() == self.address(),
    {
        SharedFontAtlas(rc_clone(&self.0))
    }
}

impl core::ops::Deref for SharedFontAtlas {
    type Target = Rc<usize>;

    fn deref(&self) -> (r: &Rc<usize>)
        ensures
            **r == self.address(),
    {
        &self.0
    }
}

impl core::ops::DerefMut for SharedFontAtlas {
    fn deref_mut(&mut self) -> (r: &mut Rc<usize>)
        ensures
            **r == old(self).address(),
            final(self).address() == **final(r),
    {
        &mut self.0
    }
}

impl SharedFontAtlas {
    /// The address of the shared atlas.
    pub closed spec fn address(self) -> usize {
        *self.0
    }

    /// Takes shared ownership of the atlas that dear imgui allocated at `atlas`.
    pub fn from_raw(atlas: usize) -> (r: SharedFontAtlas)
        ensures
            r.address() == atlas,
    {
        SharedFontAtlas(Rc::new(atlas))
    }

    /// Gets the address of the underlying `ImFontAtlas`.
    pub fn as_ptr(&self) -> (r: usize)
        ensures
            r == self.address(),
    {
        *self.0
    }

    /// Gets the address of the underlying `ImFontAtlas`.
    pub fn as_ptr_mut(&mut self) -> (r: usize)
        ensures
            r == old(self).address(),
            *final(self) == *old(self),
    {
        *self.0
    }
}

} // verus!
