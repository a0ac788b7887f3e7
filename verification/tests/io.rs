use lib::flags::{BackendFlags, ConfigFlags};
use lib::io::{input_character_utf8, Io, MouseButton};
use lib::raw::{F32Bits, ImGuiIO, ImVec2};

fn v2(x: f32, y: f32) -> ImVec2 {
    ImVec2 { x: F32Bits(x.to_bits()), y: F32Bits(y.to_bits()) }
}

fn sample_io() -> Io {
    Io(ImGuiIO {
        ConfigFlags: 0,
        BackendFlags: 0,
        DisplaySize: v2(1280.0, 720.0),
        DeltaTime: F32Bits((1.0f32 / 60.0).to_bits()),
        BackendPlatformName: 0x1000,
        BackendRendererName: 0x2000,
        MousePos: v2(10.0, 20.0),
        MouseDown: [false; 5],
        MouseWheel: F32Bits(0.5f32.to_bits()),
        MouseWheelH: F32Bits((-1.0f32).to_bits()),
        KeyCtrl: true,
        KeyShift: false,
        KeyAlt: true,
        KeySuper: false,
        WantCaptureMouse: true,
        WantCaptureKeyboard: false,
        WantTextInput: true,
        Framerate: F32Bits(60.0f32.to_bits()),
        MouseDelta: v2(-3.0, 4.0),
    })
}

#[test]
fn test_io_layout_matches_sys() {
    assert_eq!(std::mem::size_of::<Io>(), std::mem::size_of::<ImGuiIO>());
    assert_eq!(std::mem::align_of::<Io>(), std::mem::align_of::<ImGuiIO>());
}

#[test]
fn io_reads_key_and_capture_state() {
    let io = sample_io();
    assert!(io.key_ctrl());
    assert!(!io.key_shift());
    assert!(io.key_alt());
    assert!(!io.key_super());
    assert!(io.want_capture_mouse());
    assert!(!io.want_capture_keyboard());
    assert!(io.want_text_input());
    assert_eq!(io.backend_platform_name(), 0x1000);
    assert_eq!(io.backend_renderer_name(), 0x2000);
}

#[test]
fn io_float_fields_are_copied_bit_for_bit() {
    let mut io = sample_io();
    assert_eq!(f32::from_bits(io.display_size()[0].0), 1280.0);
    assert_eq!(f32::from_bits(io.display_size()[1].0), 720.0);
    assert_eq!(f32::from_bits(io.mouse_pos()[1].0), 20.0);
    assert_eq!(f32::from_bits(io.mouse_delta()[0].0), -3.0);
    assert_eq!(f32::from_bits(io.mouse_wheel().0), 0.5);
    assert_eq!(f32::from_bits(io.mouse_wheel_h().0), -1.0);
    assert_eq!(f32::from_bits(io.framerate().0), 60.0);
    io.set_display_size([F32Bits(2.5f32.to_bits()), F32Bits(f32::NAN.to_bits())]);
    assert_eq!(io.display_size()[0], F32Bits(2.5f32.to_bits()));
    assert_eq!(io.display_size()[1], F32Bits(f32::NAN.to_bits()));
    io.set_mouse_pos([F32Bits(7.0f32.to_bits()), F32Bits(8.0f32.to_bits())]);
    assert_eq!(f32::from_bits(io.mouse_pos()[0].0), 7.0);
    io.set_delta_time(F32Bits(0.25f32.to_bits()));
    assert_eq!(f32::from_bits(io.delta_time().0), 0.25);
    // the setters leave the other fields alone
    assert!(io.key_ctrl());
    assert_eq!(f32::from_bits(io.framerate().0), 60.0);
}

#[test]
fn config_flags_read_back_what_was_set() {
    let mut io = sample_io();
    let flags = ConfigFlags::NAV_ENABLE_KEYBOARD().union(ConfigFlags::IS_TOUCH_SCREEN());
    io.set_config_flags(flags);
    assert_eq!(io.0.ConfigFlags, 0x0020_0001);
    assert_eq!(io.config_flags(), flags);
    assert_eq!(io.config_flags().bits(), 0x0020_0001);
}

#[test]
fn config_flags_drop_unnamed_bits() {
    let mut io = sample_io();
    io.0.ConfigFlags = -1;
    assert_eq!(io.config_flags().bits(), 0x0030_0033);
    assert!(io.config_flags().is_all());
    io.0.ConfigFlags = 0x40 | 0x10;
    assert_eq!(io.config_flags(), ConfigFlags::NO_MOUSE());
    let read = io.config_flags();
    io.set_config_flags(read);
    assert_eq!(io.0.ConfigFlags, 0x10);
}

#[test]
fn backend_flags_read_back_what_was_set() {
    let mut io = sample_io();
    let flags = BackendFlags::HAS_GAMEPAD().union(BackendFlags::RENDERER_HAS_VTX_OFFSET());
    io.set_backend_flags(flags);
    assert_eq!(io.0.BackendFlags, 9);
    assert_eq!(io.backend_flags(), flags);
    io.0.BackendFlags = 0x7f;
    assert_eq!(io.backend_flags(), BackendFlags::all());
}

#[test]
fn mouse_buttons_index_the_down_array() {
    let mut io = sample_io();
    *io.index_mut(MouseButton::Middle) = true;
    assert!(*io.index(MouseButton::Middle));
    assert!(!*io.index(MouseButton::Left));
    assert_eq!(io.0.MouseDown, [false, false, true, false, false]);
    *io.index_mut(MouseButton::Extra2) = true;
    *io.index_mut(MouseButton::Middle) = false;
    assert_eq!(io.0.MouseDown, [false, false, false, false, true]);
    assert!(*io.index(MouseButton::Extra2));
    assert!(!*io.index(MouseButton::Right));
    assert!(!*io.index(MouseButton::Extra1));
}

#[test]
fn input_character_buffer_is_nul_terminated_utf8() {
    for c in ['a', 'é', '€', '😀', '\u{7f}', '\u{80}', '\u{7ff}', '\u{800}', '\u{ffff}', '\u{10000}', '\u{10ffff}'] {
        let buf = input_character_utf8(c);
        let mut expected = [0u8; 5];
        let n = c.encode_utf8(&mut expected).len();
        assert_eq!(buf, expected, "{:?}", c);
        assert_eq!(buf[n], 0);
        assert_eq!(std::str::from_utf8(&buf[..n]).unwrap(), c.to_string());
    }
    assert_eq!(input_character_utf8('A'), [0x41, 0, 0, 0, 0]);
    assert_eq!(input_character_utf8('€'), [0xE2, 0x82, 0xAC, 0, 0]);
    assert_eq!(input_character_utf8('😀'), [0xF0, 0x9F, 0x98, 0x80, 0]);
    assert_eq!(input_character_utf8('\0'), [0; 5]);
}
