use lib::fonts::atlas::{
    sys_font_config_default, FontAtlas, FontAtlasTexture, FontConfig, FontSource, SharedFontAtlas,
};
use lib::fonts::glyph_ranges::FontGlyphRanges;
use lib::raw::{F32Bits, ImFontAtlas, ImFontConfig};

fn bits(x: f32) -> F32Bits {
    F32Bits(x.to_bits())
}

fn name_of(raw: &ImFontConfig) -> &[u8] {
    let n = raw.Name.iter().position(|&b| b == 0).unwrap();
    &raw.Name[..n]
}

#[test]
fn test_font_atlas_layout_matches_sys() {
    assert_eq!(std::mem::size_of::<FontAtlas>(), std::mem::size_of::<ImFontAtlas>());
    assert_eq!(std::mem::align_of::<FontAtlas>(), std::mem::align_of::<ImFontAtlas>());
}

#[test]
fn test_font_config_default() {
    let sys_font_config = sys_font_config_default();
    let font_config = FontConfig::default();
    assert_eq!(font_config.size_pixels, sys_font_config.SizePixels);
    assert_eq!(font_config.oversample_h as i8, sys_font_config.OversampleH);
    assert_eq!(font_config.oversample_v as i8, sys_font_config.OversampleV);
    assert_eq!(font_config.pixel_snap_h, sys_font_config.PixelSnapH);
    assert_eq!(font_config.glyph_offset[0], sys_font_config.GlyphOffset.x);
    assert_eq!(font_config.glyph_offset[1], sys_font_config.GlyphOffset.y);
    assert_eq!(font_config.glyph_min_advance_x, sys_font_config.GlyphMinAdvanceX);
    assert_eq!(font_config.glyph_max_advance_x, sys_font_config.GlyphMaxAdvanceX);
    assert_eq!(font_config.rasterizer_multiply, sys_font_config.RasterizerMultiply);
}

#[test]
fn default_settings_are_the_documented_floats() {
    let c = FontConfig::default();
    assert_eq!(f32::from_bits(c.size_pixels.0), 0.0);
    assert_eq!(f32::from_bits(c.glyph_max_advance_x.0), f32::MAX);
    assert_eq!(f32::from_bits(c.rasterizer_multiply.0), 1.0);
    assert_eq!(f32::from_bits(c.rasterizer_density.0), 1.0);
    assert_eq!(c.ellipsis_char, None);
    assert_eq!(c.name, None);
    assert_eq!(c.glyph_ranges, FontGlyphRanges::default());
    let raw = sys_font_config_default();
    assert!(raw.FontDataOwnedByAtlas);
    assert!(!raw.MergeMode);
    assert_eq!(raw.EllipsisChar, 0);
    assert_eq!(raw.Name, [0u8; 40]);
    assert!(raw.FontData.is_empty());
    assert_eq!(raw.GlyphRanges, None);
}

#[test]
fn fonts_lists_identifiers_and_get_font_finds_them() {
    let atlas = FontAtlas(ImFontAtlas { Fonts: vec![0x100, 0x200, 0x300] });
    let ids = atlas.fonts();
    assert_eq!(ids.len(), 3);
    for id in &ids {
        let font = atlas.get_font(*id).unwrap();
        assert_eq!(font.id(), *id);
    }
    let other = FontAtlas(ImFontAtlas { Fonts: vec![0x400] }).fonts()[0];
    assert!(atlas.get_font(other).is_none());
    let empty = FontAtlas(ImFontAtlas { Fonts: vec![] });
    assert!(empty.fonts().is_empty());
    assert!(empty.get_font(ids[0]).is_none());
}

#[test]
fn apply_writes_every_setting() {
    let mut c = FontConfig::default();
    c.size_pixels = bits(13.0);
    c.oversample_h = 3;
    c.oversample_v = 300; // truncated to i8
    c.pixel_snap_h = true;
    c.glyph_extra_spacing = [bits(1.5), bits(9.0)];
    c.glyph_offset = [bits(-1.0), bits(2.0)];
    c.glyph_min_advance_x = bits(4.0);
    c.glyph_max_advance_x = bits(40.0);
    c.font_builder_flags = 0xabc;
    c.rasterizer_multiply = bits(1.25);
    c.rasterizer_density = bits(2.0);
    c.ellipsis_char = Some('…');
    c.name = Some("Proggy".to_string());
    let mut raw = sys_font_config_default();
    c.apply_to_raw_config(&mut raw);
    assert_eq!(raw.SizePixels, bits(13.0));
    assert_eq!(raw.OversampleH, 3);
    assert_eq!(raw.OversampleV, 44);
    assert!(raw.PixelSnapH);
    assert_eq!(raw.GlyphExtraAdvanceX, bits(1.5));
    assert_eq!(raw.GlyphOffset.x, bits(-1.0));
    assert_eq!(raw.GlyphOffset.y, bits(2.0));
    assert_eq!(raw.GlyphMinAdvanceX, bits(4.0));
    assert_eq!(raw.GlyphMaxAdvanceX, bits(40.0));
    assert_eq!(raw.FontLoaderFlags, 0xabc);
    assert_eq!(raw.RasterizerMultiply, bits(1.25));
    assert_eq!(raw.RasterizerDensity, bits(2.0));
    assert_eq!(raw.EllipsisChar, 0x2026);
    assert_eq!(raw.GlyphRanges, Some(FontGlyphRanges::default()));
    assert_eq!(name_of(&raw), b"Proggy");
    assert!(raw.FontDataOwnedByAtlas);
}

#[test]
fn ellipsis_beyond_u16_is_truncated_and_none_is_unset() {
    let mut c = FontConfig::default();
    c.ellipsis_char = Some('\u{1F600}');
    let mut raw = sys_font_config_default();
    c.apply_to_raw_config(&mut raw);
    assert_eq!(raw.EllipsisChar, 0xF600);
    c.ellipsis_char = None;
    c.apply_to_raw_config(&mut raw);
    assert_eq!(raw.EllipsisChar, 0xffff);
}

#[test]
fn long_names_keep_whole_characters_within_39_bytes() {
    let mut c = FontConfig::default();
    let ascii = "a".repeat(50);
    c.name = Some(ascii.clone());
    let mut raw = sys_font_config_default();
    raw.Name = [0x55; 40];
    c.apply_to_raw_config(&mut raw);
    assert_eq!(&raw.Name[..39], &ascii.as_bytes()[..39]);
    assert_eq!(raw.Name[39], 0);

    // 19 two-byte characters take 38 bytes; the 20th would end at byte 40
    let wide = "é".repeat(25);
    c.name = Some(wide.clone());
    let mut raw = sys_font_config_default();
    raw.Name = [0x55; 40];
    c.apply_to_raw_config(&mut raw);
    assert_eq!(&raw.Name[..38], &wide.as_bytes()[..38]);
    assert_eq!(raw.Name[38], 0);
    assert_eq!(raw.Name[39], 0x55);
    assert_eq!(std::str::from_utf8(&raw.Name[..38]).unwrap(), "é".repeat(19));

    // 9 four-byte characters take 36 bytes
    let emoji = "😀".repeat(12);
    c.name = Some(emoji);
    let mut raw = sys_font_config_default();
    c.apply_to_raw_config(&mut raw);
    assert_eq!(std::str::from_utf8(name_of(&raw)).unwrap(), "😀".repeat(9));

    // a short name is kept whole
    c.name = Some("ab€".to_string());
    let mut raw = sys_font_config_default();
    raw.Name = [0x55; 40];
    c.apply_to_raw_config(&mut raw);
    assert_eq!(&raw.Name[..5], "ab€".as_bytes());
    assert_eq!(raw.Name[5], 0);
    assert_eq!(raw.Name[6], 0x55);
}

#[test]
fn font_requests_start_one_font_and_merge_the_rest() {
    let data = [1u8, 2, 3, 4];
    let mut cfg = FontConfig::default();
    cfg.oversample_h = 2;
    let sources = [
        FontSource::TtfData { data: &data, size_pixels: bits(16.0), config: Some(cfg) },
        FontSource::DefaultFontData { config: None },
        FontSource::TtfData { data: &data[..2], size_pixels: bits(8.0), config: None },
    ];
    let requests = FontAtlas::font_requests(&sources);
    assert_eq!(requests.len(), 3);
    assert!(!requests[0].config.MergeMode);
    assert!(requests[1].config.MergeMode);
    assert!(requests[2].config.MergeMode);
    assert!(!requests[0].default_font);
    assert!(requests[1].default_font);
    assert_eq!(requests[0].config.FontData, vec![1, 2, 3, 4]);
    assert_eq!(requests[0].config.FontDataSize, 4);
    assert_eq!(requests[0].config.SizePixels, bits(16.0));
    assert_eq!(requests[0].config.OversampleH, 2);
    assert!(requests[0].config.FontDataOwnedByAtlas);
    assert!(requests[1].config.FontData.is_empty());
    assert_eq!(requests[1].config.FontDataSize, 0);
    assert_eq!(requests[2].config.FontData, vec![1, 2]);
    assert_eq!(requests[2].config.SizePixels, bits(8.0));
    assert_eq!(requests[2].config.OversampleH, 0);
}

#[test]
fn size_pixels_of_ttf_source_overrides_its_config() {
    let data = [7u8];
    let mut cfg = FontConfig::default();
    cfg.size_pixels = bits(30.0);
    let r = FontAtlas::font_request(&FontSource::TtfData { data: &data, size_pixels: bits(12.0), config: Some(cfg) }, true);
    assert_eq!(r.config.SizePixels, bits(12.0));
    assert!(r.config.MergeMode);
}

#[test]
fn shared_atlas_gives_its_address() {
    let mut shared = SharedFontAtlas::from_raw(0xdead_0000);
    assert_eq!(shared.as_ptr(), 0xdead_0000);
    assert_eq!(shared.as_ptr_mut(), 0xdead_0000);
    let copy = shared.clone();
    assert_eq!(copy.as_ptr(), shared.as_ptr());
}

#[test]
fn texture_handle_holds_its_data() {
    let pixels = [0u8, 255, 0, 255];
    let tex = FontAtlasTexture { width: 2, height: 2, data: &pixels };
    let copy = tex.clone();
    assert_eq!(copy.width * copy.height, 4);
    assert_eq!(copy.data, &pixels);
}
