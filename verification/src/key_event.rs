use vstd::prelude::*;

use crate::win::hi_word;
use crate::win::lo_byte;
use crate::win::spec_hi_word;
use crate::win::spec_lo_byte;

verus! {

// Virtual-key codes (WinUser.h).
pub const VK_BACK: u16 = 0x08;
pub const VK_TAB: u16 = 0x09;
pub const VK_RETURN: u16 = 0x0D;
pub const VK_SHIFT: u16 = 0x10;
pub const VK_CONTROL: u16 = 0x11;
pub const VK_SPACE: u16 = 0x20;
pub const VK_LEFT: u16 = 0x25;
pub const VK_UP: u16 = 0x26;
pub const VK_RIGHT: u16 = 0x27;
pub const VK_DOWN: u16 = 0x28;
pub const VK_H: u16 = 0x48;
pub const VK_L: u16 = 0x4C;
pub const VK_OEM_3: u16 = 0xC0;

/// Window messages that carry key events.
pub const WM_KEYDOWN: u32 = 0x0100;
pub const WM_KEYUP: u32 = 0x0101;

/// The special (non-character) keys that the engine understands.
#[derive(PartialEq, Eq, Structural, Clone, Copy, Debug)]
pub enum SpecialKey {
    NoKey,
    Backspace,
    Down,
}

/// A key event in the form the engine takes.
#[derive(PartialEq, Eq, Structural, Clone, Copy, Debug)]
pub struct KhiinKeyEvent {
    pub key_code: i32,
    pub special_key: SpecialKey,
}

/// A keyboard event as Windows reports it: the message, the virtual key, the
/// ASCII character it produces (0 if none), and the keyboard state at the time.
pub struct KeyEvent {
    pub message: u32,
    pub ascii: u8,
    pub keycode: u32,
    pub keystate: [u8; 256],
}

/// The hardware scan code carried in bits 16..24 of a key message's `lParam`.
pub open spec fn spec_scancode(lparam: isize) -> u8 {
    spec_lo_byte(spec_hi_word(lparam as u32))
}

/// Whether `b` is an ASCII punctuation character.
pub open spec fn is_ascii_punctuation(b: u8) -> bool {
    (0x21 <= b <= 0x2F) || (0x3A <= b <= 0x40) || (0x5B <= b <= 0x60) || (0x7B <= b <= 0x7E)
}

/// The special key that a virtual-key code stands for.
pub open spec fn spec_special_key(vk: u16) -> SpecialKey {
    if vk == VK_BACK {
        SpecialKey::Backspace
    } else if vk == VK_DOWN {
        SpecialKey::Down
    } else {
        SpecialKey::NoKey
    }
}

/// The keys the IME handles even when they produce no character.
pub open spec fn is_handled_vk(vk: u16) -> bool {
    vk == VK_SPACE || vk == VK_BACK || vk == VK_TAB || vk == VK_RETURN || vk == VK_DOWN || vk
        == VK_UP || vk == VK_RIGHT || vk == VK_LEFT || vk == VK_OEM_3
}

/// The keys that commit the composition in manual mode.
pub open spec fn is_preserved_vk(vk: u16) -> bool {
    vk == VK_SPACE || vk == VK_TAB || vk == VK_RETURN || vk == VK_DOWN || vk == VK_UP || vk
        == VK_RIGHT || vk == VK_LEFT
}

/// The scan code of a key message, from its `lParam`.
pub fn scancode(lparam: isize) -> (r: u8)
    ensures
        r == spec_scancode(lparam),
{
    lo_byte(hi_word(lparam as u32))
}

/// The keyboard state with the control key released: ToAscii is asked with
/// this state, so that ctrl+letter still yields the letter.
pub fn state_without_ctrl(keystate: &[u8; 256]) -> (r: [u8; 256])
    ensures
        r@ == keystate@.update(VK_CONTROL as int, 0u8),
{
    let mut s = *keystate;
    s[VK_CONTROL as usize] = 0;
    assert(s@ =~= keystate@.update(VK_CONTROL as int, 0u8));
    s
}

impl KeyEvent {
    pub open spec fn keystate_view(&self) -> Seq<u8> {
        self.keystate@
    }

    /// The virtual key of this event.
    pub open spec fn vk(&self) -> u16 {
        self.keycode as u16
    }

    /// Builds the event of a key message: `wparam` is the virtual key,
    /// `keystate` the keyboard state, and `translated` / `translated_count`
    /// what ToAscii wrote and returned for this key.
    pub fn from_keyboard(
        message: u32,
        wparam: usize,
        keystate: [u8; 256],
        translated: [u16; 2],
        translated_count: i32,
    ) -> (r: KeyEvent)
        ensures
            r.message == message,
            r.keycode == wparam as u32,
            r.ascii == (if translated_count == 1 {
                translated[0] as u8
            } else {
                0u8
            }),
            r.keystate_view() == keystate@,
    {
        let ascii: u8 = if translated_count == 1 {
            translated[0] as u8
        } else {
            0
        };
        KeyEvent { message, ascii, keycode: wparam as u32, keystate }
    }

    /// Whether the key `vk_code` was down when this event happened.
    pub fn key_down(&self, vk_code: u32) -> (r: bool)
        ensures
            r == (vk_code < 256 && self.keystate_view()[vk_code as int] >= 0x80),
    {
        if vk_code < 256 {
            let val = self.keystate[vk_code as usize];
            assert(val & 0x80 != 0 <==> val >= 0x80) by (bit_vector);
            (val & 0x80) != 0
        } else {
            false
        }
    }

    /// The virtual key of this event.
    pub fn as_virtual_key(&self) -> (r: u16)
        ensures
            r == self.vk(),
    {
        self.keycode as u16
    }

    /// The event as the engine takes it: the character typed, if any, and
    /// the special key.
    pub open spec fn spec_to_khiin(&self) -> KhiinKeyEvent {
        KhiinKeyEvent {
            key_code: if self.ascii > 0 {
                self.ascii as i32
            } else {
                0i32
            },
            special_key: spec_special_key(self.vk()),
        }
    }

    /// The event as the engine takes it.
    pub fn to_khiin(&self) -> (r: KhiinKeyEvent)
        ensures
            r == self.spec_to_khiin(),
    {
        let key_code: i32 = if self.ascii > 0 {
            self.ascii as i32
        } else {
            0
        };
        KhiinKeyEvent { key_code, special_key: windows_to_khiin_special_key_code(self) }
    }

    /// Whether this key produces an ASCII punctuation character.
    pub fn is_punctuation(&self) -> (r: bool)
        ensures
            r == is_ascii_punctuation(self.ascii),
    {
        let b = self.ascii;
        (0x21 <= b && b <= 0x2F) || (0x3A <= b && b <= 0x40) || (0x5B <= b && b <= 0x60) || (0x7B
            <= b && b <= 0x7E)
    }
}

/// The engine's special key for a Windows key event.
pub fn windows_to_khiin_special_key_code(e: &KeyEvent) -> (r: SpecialKey)
    ensures
        r == spec_special_key(e.vk()),
{
    let vk = e.as_virtual_key();
    if vk == VK_BACK {
        SpecialKey::Backspace
    } else if vk == VK_DOWN {
        SpecialKey::Down
    } else {
        SpecialKey::NoKey
    }
}

/// Whether the IME wants this key: it produces a character, or it is one of
/// the editing keys.
pub fn is_handled_key(key: &KeyEvent) -> (r: bool)
    ensures
        r == (key.ascii > 0 || is_handled_vk(key.vk())),
{
    let vk = key.as_virtual_key();
    key.ascii > 0 || vk == VK_SPACE || vk == VK_BACK || vk == VK_TAB || vk == VK_RETURN || vk
        == VK_DOWN || vk == VK_UP || vk == VK_RIGHT || vk == VK_LEFT || vk == VK_OEM_3
}

/// Whether this key commits the composition in manual mode.
pub fn is_preserved_key(key: &KeyEvent) -> (r: bool)
    ensures
        r == is_preserved_vk(key.vk()),
{
    let vk = key.as_virtual_key();
    vk == VK_SPACE || vk == VK_TAB || vk == VK_RETURN || vk == VK_DOWN || vk == VK_UP || vk
        == VK_RIGHT || vk == VK_LEFT
}

} // verus!
