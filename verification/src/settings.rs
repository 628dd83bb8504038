use vstd::prelude::*;

use crate::win::le_bytes;
use crate::win::le_units;
use crate::win::lemma_le_units_of_bytes;
use crate::win::lemma_utf16_injective;
use crate::win::lemma_wide_bytes_nul;
use crate::win::utf16_encode;
use crate::win::utf16_nul;

verus! {

/// The Win32 status of success.
pub const ERROR_SUCCESS: u32 = 0;
/// The Win32 status of a registry value that does not exist.
pub const ERROR_FILE_NOT_FOUND: u32 = 2;

/// The settings the IME keeps in the registry.
#[derive(PartialEq, Eq, Structural, Clone, Copy, Debug)]
pub enum SettingsKey {
    SettingsApp,
    DatabaseFile,
    ConfigFile,
    UserDbFile,
    FontDir,
    UiColors,
    UiSize,
    UiLanguage,
    OnOffHotkey,
    InputModeHotkey,
    UserDictionaryFile,
    DebugLock,
}

/// The light or dark theme of the Windows shell.
#[derive(PartialEq, Eq, Structural, Clone, Copy, Debug)]
pub enum SystemTheme {
    Light,
    Dark,
}

/// The registry value name of a setting.
pub open spec fn spec_reg_key(key: SettingsKey) -> Seq<char> {
    match key {
            SettingsKey::SettingsApp => "settings_exe"@,
            SettingsKey::DatabaseFile => "installed_db"@,
            SettingsKey::ConfigFile => "config_toml"@,
            SettingsKey::UserDbFile => "user_db"@,
            SettingsKey::FontDir => "font_dir"@,
            SettingsKey::UiColors => "ui_colors"@,
            SettingsKey::UiSize => "ui_size"@,
            SettingsKey::UiLanguage => "ui_language"@,
            SettingsKey::OnOffHotkey => "on_off_hotkey"@,
            SettingsKey::InputModeHotkey => "input_mode_hotkey"@,
            SettingsKey::UserDictionaryFile => "user_dictionary_file"@,
            SettingsKey::DebugLock => "DebugLock"@,
    }
}

impl SettingsKey {
    /// The registry value name of this setting.
    pub fn reg_key(&self) -> (r: &'static str)
        ensures
            r@ == spec_reg_key(*self),
    {
        match *self {
            SettingsKey::SettingsApp => "settings_exe",
            SettingsKey::DatabaseFile => "installed_db",
            SettingsKey::ConfigFile => "config_toml",
            SettingsKey::UserDbFile => "user_db",
            SettingsKey::FontDir => "font_dir",
            SettingsKey::UiColors => "ui_colors",
            SettingsKey::UiSize => "ui_size",
            SettingsKey::UiLanguage => "ui_language",
            SettingsKey::OnOffHotkey => "on_off_hotkey",
            SettingsKey::InputModeHotkey => "input_mode_hotkey",
            SettingsKey::UserDictionaryFile => "user_dictionary_file",
            SettingsKey::DebugLock => "DebugLock",
        }
    }
}

/// Every setting has a registry value of its own.
pub proof fn lemma_reg_keys_distinct(a: SettingsKey, b: SettingsKey)
    requires
        a != b,
    ensures
        spec_reg_key(a) != spec_reg_key(b),
{
    reveal_strlit("settings_exe");
    reveal_strlit("installed_db");
    reveal_strlit("config_toml");
    reveal_strlit("user_db");
    reveal_strlit("font_dir");
    reveal_strlit("ui_colors");
    reveal_strlit("ui_size");
    reveal_strlit("ui_language");
    reveal_strlit("on_off_hotkey");
    reveal_strlit("input_mode_hotkey");
    reveal_strlit("user_dictionary_file");
    reveal_strlit("DebugLock");
    if spec_reg_key(a) == spec_reg_key(b) {
        let x = spec_reg_key(a);
        assert(x.len() == spec_reg_key(b).len());
        assert(x[0] == spec_reg_key(b)[0]);
        assert(x[1] == spec_reg_key(b)[1]);
        assert(x[x.len() - 1] == spec_reg_key(b)[x.len() - 1]);
        assert(x[x.len() - 2] == spec_reg_key(b)[x.len() - 2]);
    }
}

/// The theme for the `SystemUsesLightTheme` registry value: 1 means light,
/// anything else dark.
pub fn system_theme_from_value(data: u32) -> (r: SystemTheme)
    ensures
        r == (if data == 1 {
            SystemTheme::Light
        } else {
            SystemTheme::Dark
        }),
{
    match data {
        1 => SystemTheme::Light,
        _ => SystemTheme::Dark,
    }
}

/// The text of a `REG_SZ` value read into `data`: `data_size` is the size in
/// bytes the registry reported, which counts the terminating NUL; the units
/// up to (not including) the terminator are kept.
pub fn string_value_units(data: Vec<u16>, data_size: u32) -> (r: Vec<u16>)
    requires
        data_size / 2 >= 1,
    ensures
        r@ == data@.take(if data@.len() <= data_size / 2 - 1 {
            data@.len() as int
        } else {
            data_size / 2 - 1
        }),
{
    let ghost orig = data@;
    let mut data = data;
    let u16_size = (data_size / 2) as usize;
    data.truncate(u16_size - 1);
    assert(data@ =~= orig.take(if orig.len() <= data_size / 2 - 1 {
        orig.len() as int
    } else {
        data_size / 2 - 1
    }));
    data
}

/// The bytes of a `REG_DWORD` value, least significant first.
pub fn u32_le_bytes(value: u32) -> (r: [u8; 4])
    ensures
        r@ == seq![
            (value % 0x100) as u8,
            ((value / 0x100) % 0x100) as u8,
            ((value / 0x10000) % 0x100) as u8,
            (value / 0x1000000) as u8,
        ],
{
    assert(value & 0xff == value % 0x100) by (bit_vector);
    assert((value >> 8) & 0xff == (value / 0x100) % 0x100) by (bit_vector);
    assert((value >> 16) & 0xff == (value / 0x10000) % 0x100) by (bit_vector);
    assert(value >> 24 == value / 0x1000000) by (bit_vector);
    let r = [
        (value & 0xff) as u8,
        ((value >> 8) & 0xff) as u8,
        ((value >> 16) & 0xff) as u8,
        (value >> 24) as u8,
    ];
    assert(r@ =~= seq![
        (value % 0x100) as u8,
        ((value / 0x100) % 0x100) as u8,
        ((value / 0x10000) % 0x100) as u8,
        (value / 0x1000000) as u8,
    ]);
    r
}

/// Whether the debug lock has to be created: only when reading it reported
/// that it does not exist.
pub fn should_create_debug_lock(read_status: u32) -> (r: bool)
    ensures
        r == (read_status == ERROR_FILE_NOT_FOUND),
{
    read_status == ERROR_FILE_NOT_FOUND
}

/// A text setting reads back as it was written. The value is stored as the
/// little-endian bytes of its NUL-terminated UTF-16 form; reading them back as
/// units with the byte count the registry reports, `string_value_units` keeps
/// exactly the encoding of the value (its precondition holds), and the only
/// string with that encoding is the value itself.
pub proof fn lemma_string_setting_round_trip(value: Seq<char>)
    ensures
        ({
            let bytes = le_bytes(utf16_nul(value));
            let data = le_units(bytes);
            &&& bytes.len() / 2 >= 1
            &&& data.len() == bytes.len() / 2
            &&& data.take(bytes.len() / 2 - 1) == utf16_encode(value)
        }),
        forall|t: Seq<char>| #[trigger] utf16_encode(t) == utf16_encode(value) ==> t == value,
{
    lemma_wide_bytes_nul(value);
    lemma_le_units_of_bytes(utf16_nul(value));
    let bytes = le_bytes(utf16_nul(value));
    assert(bytes.len() == 2 * utf16_nul(value).len());
    assert(le_units(bytes).take(bytes.len() / 2 - 1) =~= utf16_encode(value));
    assert forall|t: Seq<char>| #[trigger] utf16_encode(t) == utf16_encode(value) implies t
        == value by {
        lemma_utf16_injective(t, value);
    }
}

/// A number setting reads back as it was written: the four bytes stored for
/// it, least significant first, make up the same number.
pub proof fn lemma_u32_setting_round_trip(value: u32)
    ensures
        (value % 0x100) as u8 + 0x100 * (((value / 0x100) % 0x100) as u8) + 0x10000 * ((
        (value / 0x10000) % 0x100) as u8) + 0x1000000 * ((value / 0x1000000) as u8) == value,
{
    assert((value % 0x100) as u8 + 0x100 * (((value / 0x100) % 0x100) as u8) + 0x10000 * ((
    (value / 0x10000) % 0x100) as u8) + 0x1000000 * ((value / 0x1000000) as u8) == value)
        by (bit_vector);
}

/// Whether attaching in debug is allowed: only when the lock was missing
/// (`read_status` is ERROR_FILE_NOT_FOUND) and writing it then succeeded
/// (`write_status` is ERROR_SUCCESS; it is not looked at otherwise).
pub open spec fn spec_debug_attach_ok(read_status: u32, write_status: u32) -> bool {
    read_status == ERROR_FILE_NOT_FOUND && write_status == ERROR_SUCCESS
}

/// The outcome of asking to attach in debug, from the status of reading the
/// lock and, where it was written, of writing it.
pub fn debug_attach_ok(read_status: u32, write_status: u32) -> (r: bool)
    ensures
        r == spec_debug_attach_ok(read_status, write_status),
{
    should_create_debug_lock(read_status) && write_status == ERROR_SUCCESS
}

/// Of two requests to attach in debug, the second is refused once the first
/// was allowed: the first wrote the lock, so reading it again finds it
/// (`second_read` is not ERROR_FILE_NOT_FOUND) and nothing is written.
pub proof fn lemma_second_debug_attach_fails(
    first_read: u32,
    first_write: u32,
    second_read: u32,
    second_write: u32,
)
    requires
        spec_debug_attach_ok(first_read, first_write),
        second_read != ERROR_FILE_NOT_FOUND,
    ensures
        !spec_debug_attach_ok(second_read, second_write),
{
}

} // verus!
