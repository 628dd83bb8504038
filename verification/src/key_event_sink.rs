use vstd::prelude::*;
use vstd::string::StrSliceExecFns;

use crate::key_event::is_ascii_punctuation;
use crate::key_event::is_handled_key;
use crate::key_event::is_handled_vk;
use crate::key_event::is_preserved_key;
use crate::key_event::is_preserved_vk;
use crate::key_event::spec_special_key;
use crate::key_event::KeyEvent;
use crate::key_event::SpecialKey;
use crate::key_event::VK_CONTROL;
use crate::key_event::VK_H;
use crate::key_event::VK_L;
use crate::key_event::VK_RETURN;
use crate::key_event::VK_SHIFT;
use crate::key_event::VK_SPACE;
use crate::key_event::VK_TAB;

verus! {

/// What the key handler knows of the text service when a key arrives.
pub struct ServiceStatus {
    /// The IME is switched on.
    pub enabled: bool,
    /// A composition is in progress.
    pub composing: bool,
    /// The service is in manual input mode.
    pub manual_mode: bool,
    /// The text currently displayed in the composition (empty if unknown).
    pub display_text: String,
    /// The character of the key is one that the service treats as a hyphen
    /// or khin key.
    pub hyphen_or_khin_key: bool,
    /// The composition is in an illegal state.
    pub illegal: bool,
}

/// The modifier tracking of the key event sink.
#[derive(PartialEq, Eq, Structural, Clone, Copy, Debug)]
pub struct KeyEventSink {
    pub shift_pressed: bool,
    pub ctrl_pressed: bool,
}

/// What the text service has to do after a key-down event.
#[derive(PartialEq, Eq, Structural, Clone, Copy, Debug)]
pub enum KeyDownAction {
    /// Report the key as not handled.
    Ignore,
    /// Report the key as handled, doing nothing else.
    Consume,
    /// Change the output mode (`true`: Hanji first, `false`: Lomaji first)
    /// and report the key as handled.
    ChangeOutputMode(bool),
    /// Commit the whole composition followed by the given character (none:
    /// no suffix), send a reset command, and report the key as handled.
    CommitAndReset(Option<u8>),
    /// If `commit_first`, commit the composition with no suffix and send a
    /// reset command; then, if `send_key`, send the key to the engine and
    /// report whether that succeeded; otherwise report the key as not
    /// handled.
    Forward { commit_first: bool, send_key: bool },
}

/// What the text service has to do after a key-up event.
#[derive(PartialEq, Eq, Structural, Clone, Copy, Debug)]
pub enum KeyUpAction {
    Ignore,
    Consume,
    /// Toggle the input mode and report the key as handled.
    ToggleInputMode,
}

/// The last character of a composition that joins it to the next syllable.
pub open spec fn is_joiner(c: char) -> bool {
    c == '-' || c == '\u{b7}'
}

/// Whether the text ends with a hyphen or a middle dot.
pub open spec fn spec_ends_with_joiner(text: Seq<char>) -> bool {
    text.len() > 0 && is_joiner(text.last())
}

/// The suffix committed with the composition when a preserved key is pressed
/// in manual mode.
pub open spec fn preserved_key_suffix(keycode: u32) -> Option<u8> {
    if keycode == VK_SPACE as u32 {
        Some(0x20u8)
    } else if keycode == VK_TAB as u32 {
        Some(0x09u8)
    } else if keycode == VK_RETURN as u32 {
        Some(0x0Au8)
    } else {
        None
    }
}

impl KeyEventSink {
    pub open spec fn with_shift(self, v: bool) -> KeyEventSink {
        KeyEventSink { shift_pressed: v, ctrl_pressed: self.ctrl_pressed }
    }

    pub open spec fn with_ctrl(self, v: bool) -> KeyEventSink {
        KeyEventSink { shift_pressed: self.shift_pressed, ctrl_pressed: v }
    }

    /// The state after a key-down test, and whether the key is wanted.
    pub open spec fn spec_test_key_down(
        self,
        keycode: u32,
        ascii: u8,
        enabled: bool,
        composing: bool,
    ) -> (KeyEventSink, bool) {
        if !enabled {
            (self, false)
        } else if !composing && spec_special_key(keycode as u16) != SpecialKey::NoKey {
            (self, false)
        } else if keycode == VK_SHIFT as u32 {
            (self.with_shift(true), true)
        } else if keycode == VK_CONTROL as u32 {
            (self.with_ctrl(true), true)
        } else if self.ctrl_pressed && keycode != VK_H as u32 && keycode != VK_L as u32 {
            (self.with_ctrl(false), false)
        } else {
            (self, ascii > 0 || is_handled_vk(keycode as u16))
        }
    }

    /// The state after a key-down event, and the service's action.
    pub open spec fn spec_key_down(
        self,
        keycode: u32,
        ascii: u8,
        enabled: bool,
        composing: bool,
        manual_mode: bool,
        joiner_pending: bool,
    ) -> (KeyEventSink, KeyDownAction) {
        if !enabled {
            (self, KeyDownAction::Ignore)
        } else {
            let (s1, test) = self.spec_test_key_down(keycode, ascii, enabled, composing);
            if s1.shift_pressed && keycode == VK_SHIFT as u32 {
                (s1, KeyDownAction::Consume)
            } else {
                let s2 = s1.with_shift(false);
                if s2.ctrl_pressed && keycode == VK_H as u32 {
                    (s2.with_ctrl(false), KeyDownAction::ChangeOutputMode(true))
                } else if s2.ctrl_pressed && keycode == VK_L as u32 {
                    (s2.with_ctrl(false), KeyDownAction::ChangeOutputMode(false))
                } else if !s2.ctrl_pressed && manual_mode && is_preserved_vk(keycode as u16) {
                    (s2, KeyDownAction::CommitAndReset(preserved_key_suffix(keycode)))
                } else if !s2.ctrl_pressed && manual_mode && ascii > 0 && is_ascii_punctuation(
                    ascii,
                ) {
                    (s2, KeyDownAction::CommitAndReset(Some(ascii)))
                } else {
                    (
                        s2,
                        KeyDownAction::Forward {
                            commit_first: !s2.ctrl_pressed && manual_mode && joiner_pending,
                            send_key: test,
                        },
                    )
                }
            }
        }
    }

    /// The state after a key-up test, and whether the key is wanted.
    pub open spec fn spec_test_key_up(self, keycode: u32) -> (KeyEventSink, bool) {
        if self.shift_pressed && keycode == VK_SHIFT as u32 {
            (self, true)
        } else if self.ctrl_pressed && keycode == VK_CONTROL as u32 {
            (self.with_ctrl(false), true)
        } else {
            (self, false)
        }
    }

    /// The state after a key-up event, and the service's action.
    pub open spec fn spec_key_up(self, keycode: u32, enabled: bool) -> (KeyEventSink, KeyUpAction) {
        if self.shift_pressed && keycode == VK_SHIFT as u32 {
            (
                self.with_shift(false),
                if enabled {
                    KeyUpAction::ToggleInputMode
                } else {
                    KeyUpAction::Ignore
                },
            )
        } else if self.ctrl_pressed && keycode == VK_CONTROL as u32 {
            (self.with_ctrl(false), KeyUpAction::Consume)
        } else {
            (self, KeyUpAction::Ignore)
        }
    }

    /// A sink with no modifier held.
    pub fn new() -> (r: KeyEventSink)
        ensures
            !r.shift_pressed,
            !r.ctrl_pressed,
    {
        KeyEventSink { shift_pressed: false, ctrl_pressed: false }
    }

    /// Decides whether the service wants a key before it is pressed, tracking
    /// shift and control.
    pub fn test_key_down(&mut self, key_event: &KeyEvent, status: &ServiceStatus) -> (r: bool)
        ensures
            (*final(self), r) == old(self).spec_test_key_down(
                key_event.keycode,
                key_event.ascii,
                status.enabled,
                status.composing,
            ),
    {
        if !status.enabled {
            return false;
        }
        if !status.composing && key_event.to_khiin().special_key != SpecialKey::NoKey {
            return false;
        }
        if key_event.keycode == VK_SHIFT as u32 {
            self.shift_pressed = true;
            return true;
        }
        if key_event.keycode == VK_CONTROL as u32 {
            self.ctrl_pressed = true;
            return true;
        } else if self.ctrl_pressed {
            if key_event.keycode != VK_H as u32 && key_event.keycode != VK_L as u32 {
                self.ctrl_pressed = false;
                return false;
            }
        }
        is_handled_key(key_event)
    }

    /// Decides what the service does with a key that is pressed.
    pub fn key_down(&mut self, key_event: &KeyEvent, status: &ServiceStatus) -> (r: KeyDownAction)
        ensures
            (*final(self), r) == old(self).spec_key_down(
                key_event.keycode,
                key_event.ascii,
                status.enabled,
                status.composing,
                status.manual_mode,
                spec_ends_with_joiner(status.display_text@) && !status.hyphen_or_khin_key
                    && !status.illegal,
            ),
    {
        if !status.enabled {
            return KeyDownAction::Ignore;
        }
        let test = self.test_key_down(key_event, status);

        if self.shift_pressed {
            if key_event.keycode == VK_SHIFT as u32 {
                return KeyDownAction::Consume;
            }
            self.shift_pressed = false;
        }
        let mut commit_first = false;
        if self.ctrl_pressed {
            if key_event.keycode == VK_H as u32 {
                self.ctrl_pressed = false;
                return KeyDownAction::ChangeOutputMode(true);
            } else if key_event.keycode == VK_L as u32 {
                self.ctrl_pressed = false;
                return KeyDownAction::ChangeOutputMode(false);
            }
        } else if status.manual_mode {
            if is_preserved_key(key_event) {
                let keycode = key_event.keycode;
                let suffix: Option<u8> = if keycode == VK_SPACE as u32 {
                    Some(0x20)
                } else if keycode == VK_TAB as u32 {
                    Some(0x09)
                } else if keycode == VK_RETURN as u32 {
                    Some(0x0A)
                } else {
                    None
                };
                return KeyDownAction::CommitAndReset(suffix);
            }
            if key_event.ascii > 0 && key_event.is_punctuation() {
                return KeyDownAction::CommitAndReset(Some(key_event.ascii));
            }
            if ends_with_joiner(status.display_text.as_str()) && !status.hyphen_or_khin_key
                && !status.illegal {
                commit_first = true;
            }
        }
        KeyDownAction::Forward { commit_first, send_key: test }
    }

    /// Decides whether the service wants a key before it is released.
    pub fn test_key_up(&mut self, key_event: &KeyEvent) -> (r: bool)
        ensures
            (*final(self), r) == old(self).spec_test_key_up(key_event.keycode),
    {
        if self.shift_pressed && key_event.keycode == VK_SHIFT as u32 {
            true
        } else if self.ctrl_pressed && key_event.keycode == VK_CONTROL as u32 {
            self.ctrl_pressed = false;
            true
        } else {
            false
        }
    }

    /// Decides what the service does with a key that is released: releasing
    /// shift alone toggles the input mode.
    pub fn key_up(&mut self, key_event: &KeyEvent, enabled: bool) -> (r: KeyUpAction)
        ensures
            (*final(self), r) == old(self).spec_key_up(key_event.keycode, enabled),
    {
        if self.shift_pressed && key_event.keycode == VK_SHIFT as u32 {
            self.shift_pressed = false;
            if !enabled {
                return KeyUpAction::Ignore;
            }
            KeyUpAction::ToggleInputMode
        } else if self.ctrl_pressed && key_event.keycode == VK_CONTROL as u32 {
            self.ctrl_pressed = false;
            KeyUpAction::Consume
        } else {
            KeyUpAction::Ignore
        }
    }
}

/// Whether `text` ends with a hyphen or a middle dot.
pub fn ends_with_joiner(text: &str) -> (r: bool)
    ensures
        r == spec_ends_with_joiner(text@),
{
    let n = text.unicode_len();
    if n == 0 {
        false
    } else {
        let c = text.get_char(n - 1);
        c == '-' || c == '\u{b7}'
    }
}

// ---------------------------------------------------------------------------
// Laws
// ---------------------------------------------------------------------------

/// Tapping shift on its own, while the IME is on, toggles the input mode and
/// leaves shift released, whatever the state before.
pub proof fn lemma_shift_tap_toggles_input_mode(
    s: KeyEventSink,
    composing: bool,
    manual_mode: bool,
    joiner_pending: bool,
)
    ensures
        ({
            let (s1, down) = s.spec_key_down(
                VK_SHIFT as u32,
                0,
                true,
                composing,
                manual_mode,
                joiner_pending,
            );
            let (s2, up) = s1.spec_key_up(VK_SHIFT as u32, true);
            &&& down == KeyDownAction::Consume
            &&& up == KeyUpAction::ToggleInputMode
            &&& s2 == s.with_shift(false)
        }),
{
}

/// Pressing control and then H (or L), while the IME is on, changes the
/// output mode to Hanji first (or Lomaji first) and leaves no modifier held.
pub proof fn lemma_ctrl_letter_changes_output_mode(
    s: KeyEventSink,
    composing: bool,
    manual_mode: bool,
    joiner_pending: bool,
    letter: u32,
)
    requires
        letter == VK_H as u32 || letter == VK_L as u32,
    ensures
        ({
            let (s1, a1) = s.spec_key_down(
                VK_CONTROL as u32,
                0,
                true,
                composing,
                manual_mode,
                joiner_pending,
            );
            let (s2, a2) = s1.spec_key_down(letter, 0, true, composing, manual_mode, joiner_pending);
            &&& a1 == KeyDownAction::Forward {
                commit_first: false,
                send_key: true,
            }
            &&& a2 == KeyDownAction::ChangeOutputMode(letter == VK_H as u32)
            &&& !s2.shift_pressed
            &&& !s2.ctrl_pressed
        }),
{
}

/// While the IME is off, key-down events change nothing and are ignored.
pub proof fn lemma_disabled_ignores_keys(
    s: KeyEventSink,
    keycode: u32,
    ascii: u8,
    composing: bool,
    manual_mode: bool,
    joiner_pending: bool,
)
    ensures
        s.spec_key_down(keycode, ascii, false, composing, manual_mode, joiner_pending) == (
            s,
            KeyDownAction::Ignore,
        ),
        s.spec_test_key_down(keycode, ascii, false, composing) == (s, false),
{
}

/// Pressing then releasing control, while the IME is on, leaves control
/// released.
pub proof fn lemma_ctrl_press_release(
    s: KeyEventSink,
    composing: bool,
    manual_mode: bool,
    joiner_pending: bool,
    enabled_on_release: bool,
)
    ensures
        ({
            let (s1, _a1) = s.spec_key_down(
                VK_CONTROL as u32,
                0,
                true,
                composing,
                manual_mode,
                joiner_pending,
            );
            let (s2, a2) = s1.spec_key_up(VK_CONTROL as u32, enabled_on_release);
            &&& a2 == KeyUpAction::Consume
            &&& !s2.ctrl_pressed
            &&& !s2.shift_pressed
        }),
{
}

/// Any other key pressed while control is held (not H or L, not a modifier)
/// releases the tracked control and is never passed to the engine.
pub proof fn lemma_ctrl_other_key_dropped(
    keycode: u32,
    ascii: u8,
    composing: bool,
    manual_mode: bool,
    joiner_pending: bool,
)
    requires
        keycode != VK_H as u32,
        keycode != VK_L as u32,
        keycode != VK_SHIFT as u32,
        keycode != VK_CONTROL as u32,
        composing || spec_special_key(keycode as u16) == SpecialKey::NoKey,
    ensures
        ({
            let s = KeyEventSink { shift_pressed: false, ctrl_pressed: true };
            let (s1, a) = s.spec_key_down(keycode, ascii, true, composing, manual_mode, joiner_pending);
            &&& !s1.ctrl_pressed
            &&& !(a matches KeyDownAction::Forward { send_key: true, .. })
        }),
{
}

/// Any key other than Shift, pressed while the IME is on, ends a Shift
/// press: afterwards Shift is no longer held, so releasing Shift does not
/// toggle the input mode (Shift+letter types a capital and leaves the mode
/// alone); only Shift pressed and released on its own toggles it.
pub proof fn lemma_other_key_ends_shift(
    s: KeyEventSink,
    keycode: u32,
    ascii: u8,
    composing: bool,
    manual_mode: bool,
    joiner_pending: bool,
    enabled_on_release: bool,
)
    requires
        keycode != VK_SHIFT as u32,
    ensures
        !s.spec_key_down(keycode, ascii, true, composing, manual_mode, joiner_pending).0.shift_pressed,
        s.spec_key_down(keycode, ascii, true, composing, manual_mode, joiner_pending).0.spec_key_up(
            VK_SHIFT as u32,
            enabled_on_release,
        ).1 != KeyUpAction::ToggleInputMode,
{
}

} // verus!
