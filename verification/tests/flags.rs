use lib::flags::{BackendFlags, ConfigFlags, FontAtlasFlags};

#[test]
fn config_flag_values_are_dear_imguis() {
    assert_eq!(ConfigFlags::NAV_ENABLE_KEYBOARD().bits(), 1 << 0);
    assert_eq!(ConfigFlags::NAV_ENABLE_GAMEPAD().bits(), 1 << 1);
    assert_eq!(ConfigFlags::NO_MOUSE().bits(), 1 << 4);
    assert_eq!(ConfigFlags::NO_MOUSE_CURSOR_CHANGE().bits(), 1 << 5);
    assert_eq!(ConfigFlags::IS_SRGB().bits(), 1 << 20);
    assert_eq!(ConfigFlags::IS_TOUCH_SCREEN().bits(), 1 << 21);
    assert_eq!(BackendFlags::HAS_GAMEPAD().bits(), 1);
    assert_eq!(BackendFlags::HAS_MOUSE_CURSORS().bits(), 2);
    assert_eq!(BackendFlags::HAS_SET_MOUSE_POS().bits(), 4);
    assert_eq!(BackendFlags::RENDERER_HAS_VTX_OFFSET().bits(), 8);
    assert_eq!(FontAtlasFlags::NO_POWER_OF_TWO_HEIGHT().bits(), 1);
    assert_eq!(FontAtlasFlags::NO_MOUSE_CURSORS().bits(), 2);
    assert_eq!(FontAtlasFlags::NO_BAKED_LINES().bits(), 4);
}

#[test]
fn from_bits_accepts_named_bits_only() {
    assert_eq!(ConfigFlags::from_bits(0x11), Some(ConfigFlags::NAV_ENABLE_KEYBOARD().union(ConfigFlags::NO_MOUSE())));
    assert_eq!(ConfigFlags::from_bits(0x40), None);
    assert_eq!(FontAtlasFlags::from_bits(8), None);
    assert_eq!(FontAtlasFlags::from_bits(7), Some(FontAtlasFlags::all()));
    assert_eq!(ConfigFlags::from_bits_truncate(0xffff_ffff), ConfigFlags::all());
    assert_eq!(BackendFlags::from_bits_truncate(0xf0), BackendFlags::empty());
}

#[test]
fn set_operations() {
    let mut f = ConfigFlags::empty();
    assert!(f.is_empty());
    f.insert(ConfigFlags::IS_SRGB());
    f.insert(ConfigFlags::NO_MOUSE());
    assert!(f.contains(ConfigFlags::IS_SRGB()));
    assert!(f.contains(ConfigFlags::IS_SRGB().union(ConfigFlags::NO_MOUSE())));
    assert!(!f.contains(ConfigFlags::NAV_ENABLE_GAMEPAD()));
    assert!(f.intersects(ConfigFlags::NO_MOUSE().union(ConfigFlags::NAV_ENABLE_GAMEPAD())));
    assert!(!f.intersects(ConfigFlags::NAV_ENABLE_GAMEPAD()));
    f.remove(ConfigFlags::IS_SRGB());
    assert_eq!(f, ConfigFlags::NO_MOUSE());
    f.toggle(ConfigFlags::NO_MOUSE().union(ConfigFlags::IS_TOUCH_SCREEN()));
    assert_eq!(f, ConfigFlags::IS_TOUCH_SCREEN());
    f.set(ConfigFlags::NAV_ENABLE_KEYBOARD(), true);
    assert_eq!(f.bits(), 0x0020_0001);
    f.set(ConfigFlags::IS_TOUCH_SCREEN(), false);
    assert_eq!(f, ConfigFlags::NAV_ENABLE_KEYBOARD());
    assert_eq!(f.complement().bits(), 0x0030_0032);
    assert!(f.union(f.complement()).is_all());
    assert_eq!(ConfigFlags::all().intersection(ConfigFlags::IS_SRGB()), ConfigFlags::IS_SRGB());
    assert_eq!(ConfigFlags::all().difference(ConfigFlags::all()), ConfigFlags::empty());
    let b = BackendFlags::HAS_GAMEPAD().union(BackendFlags::HAS_SET_MOUSE_POS());
    assert_eq!(b.complement(), BackendFlags::HAS_MOUSE_CURSORS().union(BackendFlags::RENDERER_HAS_VTX_OFFSET()));
}

#[test]
fn bits_roundtrip() {
    for bits in 0u32..64 {
        let f = FontAtlasFlags::from_bits_truncate(bits);
        assert_eq!(f.bits(), bits & 7);
        assert_eq!(FontAtlasFlags::from_bits(f.bits()), Some(f));
        assert_eq!(FontAtlasFlags::from_bits_truncate(f.bits()), f);
    }
}

#[test]
fn insert_then_contains_remove_then_disjoint() {
    for bits in 0u32..16 {
        let other = BackendFlags::HAS_MOUSE_CURSORS().union(BackendFlags::RENDERER_HAS_VTX_OFFSET());
        let mut f = BackendFlags::from_bits_truncate(bits);
        f.insert(other);
        assert!(f.contains(other));
        f.remove(other);
        assert!(!f.intersects(other));
    }
}
