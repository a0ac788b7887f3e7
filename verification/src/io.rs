//! The IO block: settings and inputs/outputs shared with dear imgui.

use vstd::prelude::*;

use crate::clipboard::lemma_encode_scalar_nul;
use crate::flags::{lemma_within_mask, BackendFlags, ConfigFlags};
use vstd::utf8::{char_is_scalar, decode_utf8, encode_scalar, encode_utf8, encode_utf8_decode_utf8};
use crate::raw::{F32Bits, ImGuiIO, ImVec2};

verus! {

/// A mouse button, by its index in `ImGuiIO::MouseDown`.
#[derive(Clone, Copy, Debug, PartialEq, Eq, Structural, Hash)]
pub enum MouseButton {
    Left,
    Right,
    Middle,
    Extra1,
    Extra2,
}

impl MouseButton {
    /// The index of the button in `MouseDown`.
    pub open spec fn index(self) -> int {
        match self {
            MouseButton::Left => 0,
            MouseButton::Right => 1,
            MouseButton::Middle => 2,
            MouseButton::Extra1 => 3,
            MouseButton::Extra2 => 4,
        }
    }

    fn as_index(self) -> (r: usize)
        ensures
            r == self.index(),
    {
        match self {
            MouseButton::Left => 0,
            MouseButton::Right => 1,
            MouseButton::Middle => 2,
            MouseButton::Extra1 => 3,
            MouseButton::Extra2 => 4,
        }
    }
}

/// The flag set that reading a raw `ConfigFlags` field gives: its bits as
/// unsigned, the unnamed ones dropped.
pub open spec fn config_flags_of(raw: i32) -> u32 {
    (raw as u32) & ConfigFlags::all_bits()
}

/// The flag set that reading a raw `BackendFlags` field gives.
pub open spec fn backend_flags_of(raw: i32) -> u32 {
    (raw as u32) & BackendFlags::all_bits()
}

/// Settings and inputs/outputs shared with dear imgui.
///
/// Newtype around [`ImGuiIO`], whose fields keep their C++ PascalCase names
/// (`io.0.DisplaySize`, `io.0.DeltaTime`, ...). Common reads and writes are
/// also offered as snake_case methods.
pub struct Io(pub ImGuiIO);

impl core::ops::Deref for Io {
    type Target = ImGuiIO;

    fn deref(&self) -> (r: &ImGuiIO)
        ensures
            *r == self.0,
    {
        &self.0
    }
}

impl core::ops::DerefMut for Io {
    fn deref_mut(&mut self) -> (r: &mut ImGuiIO)
        ensures
            *r == old(self).0,
            final(self).0 == *final(r),
    {
        &mut self.0
    }
}

impl Io {
    pub fn display_size(&self) -> (r: [F32Bits; 2])
        ensures
            r@ == seq![self.0.DisplaySize.x, self.0.DisplaySize.y],
    {
        [self.0.DisplaySize.x, self.0.DisplaySize.y]
    }

    pub fn set_display_size(&mut self, v: [F32Bits; 2])
        ensures
            final(self).0 == (ImGuiIO { DisplaySize: ImVec2 { x: v[0], y: v[1] }, ..old(self).0 }),
    {
        self.0.DisplaySize = ImVec2 { x: v[0], y: v[1] };
    }

    pub fn delta_time(&self) -> (r: F32Bits)
        ensures
            r == self.0.DeltaTime,
    {
        self.0.DeltaTime
    }

    pub fn set_delta_time(&mut self, v: F32Bits)
        ensures
            final(self).0 == (ImGuiIO { DeltaTime: v, ..old(self).0 }),
    {
        self.0.DeltaTime = v;
    }

    pub fn mouse_pos(&self) -> (r: [F32Bits; 2])
        ensures
            r@ == seq![self.0.MousePos.x, self.0.MousePos.y],
    {
        [self.0.MousePos.x, self.0.MousePos.y]
    }

    pub fn set_mouse_pos(&mut self, v: [F32Bits; 2])
        ensures
            final(self).0 == (ImGuiIO { MousePos: ImVec2 { x: v[0], y: v[1] }, ..old(self).0 }),
    {
        self.0.MousePos = ImVec2 { x: v[0], y: v[1] };
    }

    pub fn mouse_delta(&self) -> (r: [F32Bits; 2])
        ensures
            r@ == seq![self.0.MouseDelta.x, self.0.MouseDelta.y],
    {
        [self.0.MouseDelta.x, self.0.MouseDelta.y]
    }

    pub fn mouse_wheel(&self) -> (r: F32Bits)
        ensures
            r == self.0.MouseWheel,
    {
        self.0.MouseWheel
    }

    pub fn mouse_wheel_h(&self) -> (r: F32Bits)
        ensures
            r == self.0.MouseWheelH,
    {
        self.0.MouseWheelH
    }

    pub fn key_ctrl(&self) -> (r: bool)
        ensures
            r == self.0.KeyCtrl,
    {
        self.0.KeyCtrl
    }

    pub fn key_shift(&self) -> (r: bool)
        ensures
            r == self.0.KeyShift,
    {
        self.0.KeyShift
    }

    pub fn key_alt(&self) -> (r: bool)
        ensures
            r == self.0.KeyAlt,
    {
        self.0.KeyAlt
    }

    pub fn key_super(&self) -> (r: bool)
        ensures
            r == self.0.KeySuper,
    {
        self.0.KeySuper
    }

    pub fn want_capture_mouse(&self) -> (r: bool)
        ensures
            r == self.0.WantCaptureMouse,
    {
        self.0.WantCaptureMouse
    }

    pub fn want_capture_keyboard(&self) -> (r: bool)
        ensures
            r == self.0.WantCaptureKeyboard,
    {
        self.0.WantCaptureKeyboard
    }

    pub fn want_text_input(&self) -> (r: bool)
        ensures
            r == self.0.WantTextInput,
    {
        self.0.WantTextInput
    }

    pub fn framerate(&self) -> (r: F32Bits)
        ensures
            r == self.0.Framerate,
    {
        self.0.Framerate
    }

    pub fn config_flags(&self) -> (r: ConfigFlags)
        ensures
            r@ == config_flags_of(self.0.ConfigFlags),
            r.valid(),
    {
        ConfigFlags::from_bits_truncate(self.0.ConfigFlags as u32)
    }

    pub fn set_config_flags(&mut self, flags: ConfigFlags)
        ensures
            final(self).0 == (ImGuiIO { ConfigFlags: flags@ as i32, ..old(self).0 }),
    {
        self.0.ConfigFlags = flags.bits() as i32;
    }

    pub fn backend_flags(&self) -> (r: BackendFlags)
        ensures
            r@ == backend_flags_of(self.0.BackendFlags),
            r.valid(),
    {
        BackendFlags::from_bits_truncate(self.0.BackendFlags as u32)
    }

    pub fn set_backend_flags(&mut self, flags: BackendFlags)
        ensures
            final(self).0 == (ImGuiIO { BackendFlags: flags@ as i32, ..old(self).0 }),
    {
        self.0.BackendFlags = flags.bits() as i32;
    }

    /// The address of the backend platform's name, a C string.
    pub fn backend_platform_name(&self) -> (r: usize)
        ensures
            r == self.0.BackendPlatformName,
    {
        self.0.BackendPlatformName
    }

    /// The address of the backend renderer's name, a C string.
    pub fn backend_renderer_name(&self) -> (r: usize)
        ensures
            r == self.0.BackendRendererName,
    {
        self.0.BackendRendererName
    }

    /// Whether the mouse button is down.
    pub fn index(&self, index: MouseButton) -> (r: &bool)
        ensures
            *r == self.0.MouseDown[index.index()],
            index is Left ==> *r == self.0.MouseDown[0],
            index is Right ==> *r == self.0.MouseDown[1],
            index is Middle ==> *r == self.0.MouseDown[2],
            index is Extra1 ==> *r == self.0.MouseDown[3],
            index is Extra2 ==> *r == self.0.MouseDown[4],
    {
        &self.0.MouseDown[index.as_index()]
    }

    /// The down state of the mouse button, to be changed in place.
    pub fn index_mut(&mut self, index: MouseButton) -> (r: &mut bool)
        ensures
            *r == old(self).0.MouseDown[index.index()],
            final(self).0.MouseDown@ == old(self).0.MouseDown@.update(index.index(), *final(r)),
            final(self).0 == (ImGuiIO { MouseDown: final(self).0.MouseDown, ..old(self).0 }),
            index is Left ==> *r == old(self).0.MouseDown[0]
                && final(self).0.MouseDown@ == old(self).0.MouseDown@.update(0, *final(r)),
            index is Right ==> *r == old(self).0.MouseDown[1]
                && final(self).0.MouseDown@ == old(self).0.MouseDown@.update(1, *final(r)),
            index is Middle ==> *r == old(self).0.MouseDown[2]
                && final(self).0.MouseDown@ == old(self).0.MouseDown@.update(2, *final(r)),
            index is Extra1 ==> *r == old(self).0.MouseDown[3]
                && final(self).0.MouseDown@ == old(self).0.MouseDown@.update(3, *final(r)),
            index is Extra2 ==> *r == old(self).0.MouseDown[4]
                && final(self).0.MouseDown@ == old(self).0.MouseDown@.update(4, *final(r)),
    {
        &mut self.0.MouseDown[index.as_index()]
    }
}

/// Each mouse button stands at its dear imgui number in `MouseDown`: left 0,
/// right 1, middle 2, then the two extra buttons 3 and 4; no two share a slot.
pub proof fn lemma_mouse_button_numbers(a: MouseButton, b: MouseButton)
    ensures
        MouseButton::Left.index() == 0,
        MouseButton::Right.index() == 1,
        MouseButton::Middle.index() == 2,
        MouseButton::Extra1.index() == 3,
        MouseButton::Extra2.index() == 4,
        0 <= a.index() < 5,
        a.index() == b.index() ==> a == b,
{
}

/// Converting an unsigned value to signed and back keeps its bits.
proof fn lemma_u32_i32_roundtrip(x: u32)
    by (bit_vector)
    ensures
        (x as i32) as u32 == x,
{
}

/// Writing a set of configuration flags and reading them back gives the same set.
pub proof fn lemma_config_flags_set_then_get(flags: ConfigFlags)
    requires
        flags.valid(),
    ensures
        config_flags_of(flags@ as i32) == flags@,
{
    lemma_u32_i32_roundtrip(flags@);
    lemma_within_mask(flags@, ConfigFlags::all_bits());
}

/// Writing back the configuration flags just read leaves what is read unchanged.
pub proof fn lemma_config_flags_get_then_set(raw: i32)
    ensures
        config_flags_of(config_flags_of(raw) as i32) == config_flags_of(raw),
{
    crate::flags::lemma_and_within(raw as u32, ConfigFlags::all_bits());
    lemma_u32_i32_roundtrip(config_flags_of(raw));
}

/// Writing a set of backend flags and reading them back gives the same set.
pub proof fn lemma_backend_flags_set_then_get(flags: BackendFlags)
    requires
        flags.valid(),
    ensures
        backend_flags_of(flags@ as i32) == flags@,
{
    lemma_u32_i32_roundtrip(flags@);
    lemma_within_mask(flags@, BackendFlags::all_bits());
}

/// Writing back the backend flags just read leaves what is read unchanged.
pub proof fn lemma_backend_flags_get_then_set(raw: i32)
    ensures
        backend_flags_of(backend_flags_of(raw) as i32) == backend_flags_of(raw),
{
    crate::flags::lemma_and_within(raw as u32, BackendFlags::all_bits());
    lemma_u32_i32_roundtrip(backend_flags_of(raw));
}

/// The UTF-8 encoding of a one-character text is the encoding of its scalar.
proof fn lemma_encode_single(character: char)
    ensures
        encode_utf8(seq![character]) == encode_scalar(character as u32),
{
    let s = seq![character];
    assert(s.drop_first() =~= Seq::<char>::empty());
    assert(encode_utf8(Seq::<char>::empty()) =~= Seq::<u8>::empty());
    assert(s[0] == character);
    assert(encode_scalar(character as u32) + Seq::<u8>::empty() =~= encode_scalar(character as u32));
}

/// The buffer that queues a character of text input: its UTF-8 encoding,
/// followed by NUL bytes up to five bytes in all.
pub open spec fn input_character_buffer(character: char) -> Seq<u8> {
    let bytes = encode_utf8(seq![character]);
    bytes + Seq::new((5 - bytes.len()) as nat, |i: int| 0u8)
}

/// The NUL-terminated UTF-8 encoding of `character` that `add_input_character`
/// hands to `ImGuiIO_AddInputCharactersUTF8`.
pub fn input_character_utf8(character: char) -> (r: [u8; 5])
    ensures
        r@ == input_character_buffer(character),
{
    broadcast use char_is_scalar;

    let v = character as u32;
    let mut buf = [0u8; 5];
    if v <= 0x7F {
        buf[0] = (v & 0x7F) as u8;
    } else if v <= 0x7FF {
        buf[0] = 0xC0 | ((v >> 6) & 0x1F) as u8;
        buf[1] = 0x80 | (v & 0x3F) as u8;
    } else if v <= 0xFFFF {
        buf[0] = 0xE0 | ((v >> 12) & 0x0F) as u8;
        buf[1] = 0x80 | ((v >> 6) & 0x3F) as u8;
        buf[2] = 0x80 | (v & 0x3F) as u8;
    } else {
        buf[0] = 0xF0 | ((v >> 18) & 0x7) as u8;
        buf[1] = 0x80 | ((v >> 12) & 0x3F) as u8;
        buf[2] = 0x80 | ((v >> 6) & 0x3F) as u8;
        buf[3] = 0x80 | (v & 0x3F) as u8;
    }
    proof {
        lemma_encode_single(character);
        assert(buf@ =~= input_character_buffer(character));
    }
    buf
}

/// The text ahead of the first NUL of the buffer that queues a character
/// other than NUL decodes to exactly that character.
pub proof fn lemma_input_character_roundtrip(character: char)
    requires
        character != '\0',
    ensures
        ({
            let buf = input_character_buffer(character);
            let n = encode_utf8(seq![character]).len() as int;
            &&& 1 <= n <= 4
            &&& buf[n] == 0
            &&& forall|i: int| 0 <= i < n ==> buf[i] != 0
            &&& decode_utf8(buf.take(n)) == seq![character]
        }),
{
    let bytes = encode_utf8(seq![character]);
    lemma_encode_single(character);
    let buf = input_character_buffer(character);
    assert(buf.take(bytes.len() as int) =~= bytes);
    encode_utf8_decode_utf8(seq![character]);
    lemma_encode_scalar_nul(character);
    assert forall|i: int| 0 <= i < bytes.len() implies buf[i] != 0 by {
        assert(buf[i] == bytes[i]);
    }
}

} // verus!
