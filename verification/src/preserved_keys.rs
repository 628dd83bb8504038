use vstd::prelude::*;

use crate::key_event::VK_OEM_3;
use crate::key_event::VK_SPACE;

verus! {

/// MOD_ALT: the Alt key must be held.
pub const MOD_ALT: u32 = 0x0001;
/// MOD_CONTROL: the Ctrl key must be held.
pub const MOD_CONTROL: u32 = 0x0002;
/// MOD_SHIFT: the Shift key must be held.
pub const MOD_SHIFT: u32 = 0x0004;

/// The key combinations that the input method reserves for itself.
#[derive(PartialEq, Eq, Structural, Clone, Copy, Debug)]
pub enum PreservedKeyId {
    /// Turns the input method on and off.
    OnOff,
    /// Switches the input mode.
    SwitchMode,
    /// Types a full-width space.
    FullWidthSpace,
}

/// A reserved key combination: the key, the modifiers held with it, and
/// the description registered for it.
#[derive(Clone, Copy, Debug)]
pub struct PreservedKey {
    pub id: PreservedKeyId,
    pub vkey: u32,
    pub modifiers: u32,
    pub desc: &'static str,
}

/// The key and modifiers of each reserved combination: Alt+` turns the input
/// method on and off, Ctrl+` switches the mode, Shift+Space types a
/// full-width space.
pub open spec fn spec_preserved_key(id: PreservedKeyId) -> (u32, u32) {
    match id {
        PreservedKeyId::OnOff => (VK_OEM_3 as u32, MOD_ALT),
        PreservedKeyId::SwitchMode => (VK_OEM_3 as u32, MOD_CONTROL),
        PreservedKeyId::FullWidthSpace => (VK_SPACE as u32, MOD_SHIFT),
    }
}

/// The description registered with each reserved combination.
pub open spec fn spec_preserved_key_desc(id: PreservedKeyId) -> Seq<char> {
    match id {
        PreservedKeyId::OnOff => "Direct input"@,
        PreservedKeyId::SwitchMode => "Switch mode"@,
        PreservedKeyId::FullWidthSpace => "Direct input"@,
    }
}

/// The reserved combination `id`.
pub fn preserved_key(id: PreservedKeyId) -> (r: PreservedKey)
    ensures
        r.id == id,
        (r.vkey, r.modifiers) == spec_preserved_key(id),
        r.desc@ == spec_preserved_key_desc(id),
{
    match id {
        PreservedKeyId::OnOff => PreservedKey {
            id,
            vkey: VK_OEM_3 as u32,
            modifiers: MOD_ALT,
            desc: "Direct input",
        },
        PreservedKeyId::SwitchMode => PreservedKey {
            id,
            vkey: VK_OEM_3 as u32,
            modifiers: MOD_CONTROL,
            desc: "Switch mode",
        },
        PreservedKeyId::FullWidthSpace => PreservedKey {
            id,
            vkey: VK_SPACE as u32,
            modifiers: MOD_SHIFT,
            desc: "Direct input",
        },
    }
}

/// No two reserved combinations share a key and modifiers.
pub proof fn lemma_preserved_keys_distinct(a: PreservedKeyId, b: PreservedKeyId)
    requires
        a != b,
    ensures
        spec_preserved_key(a) != spec_preserved_key(b),
{
}

} // verus!
