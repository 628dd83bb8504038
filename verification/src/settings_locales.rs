use vstd::prelude::*;
use vstd::string::StringExecFns;

use crate::text::decimal;
use crate::text::decimal_string;
use crate::settings_resource::IDS_WINDOW_CAPTION;
use crate::settings_resource::IDD_APPEARANCETAB;
use crate::settings_resource::IDL_COLOR;
use crate::settings_resource::IDS_LIGHT_THEME;
use crate::settings_resource::IDS_DARK_THEME;
use crate::settings_resource::IDL_CANDIDATE_SIZE;
use crate::settings_resource::IDL_CANDIDATE_SIZE_S;
use crate::settings_resource::IDL_CANDIDATE_SIZE_L;
use crate::settings_resource::IDL_DISPLAY_LANGUAGE;
use crate::settings_resource::IDS_DISPLAY_LANGUAGE_EN;
use crate::settings_resource::IDS_DISPLAY_LANGUAGE_HANLO;
use crate::settings_resource::IDS_DISPLAY_LANGUAGE_LO;
use crate::settings_resource::IDL_EDIT_TRY;

verus! {

/// The interface languages of the settings window.
#[derive(PartialEq, Eq, Structural, Clone, Copy, Debug)]
#[allow(non_camel_case_types)]
pub enum Locale {
    EN,
    OAN,
}

/// The English interface texts.
pub open spec fn spec_text_en(key: u16) -> Option<Seq<char>> {
    if key == IDS_WINDOW_CAPTION {
        Some("Khíín Taiwanese IME Settings"@)
    } else if key == IDD_APPEARANCETAB {
        Some("Display"@)
    } else if key == IDL_COLOR {
        Some("Colors:"@)
    } else if key == IDS_LIGHT_THEME {
        Some("Light"@)
    } else if key == IDS_DARK_THEME {
        Some("Dark"@)
    } else if key == IDL_CANDIDATE_SIZE {
        Some("Candidate font size:"@)
    } else if key == IDL_CANDIDATE_SIZE_S {
        Some("Smaller"@)
    } else if key == IDL_CANDIDATE_SIZE_L {
        Some("Larger"@)
    } else if key == IDL_DISPLAY_LANGUAGE {
        Some("Display language (介面語言):"@)
    } else if key == IDS_DISPLAY_LANGUAGE_EN {
        Some("English"@)
    } else if key == IDS_DISPLAY_LANGUAGE_HANLO {
        Some("漢羅台 (Hanlo Taiwanese)"@)
    } else if key == IDS_DISPLAY_LANGUAGE_LO {
        Some("Lô-jī Tâi (Romanized Taiwanese)"@)
    } else if key == IDL_EDIT_TRY {
        Some("Try it:"@)
    } else {
        None
    }
}

/// The Taiwanese interface texts.
pub open spec fn spec_text_oan(key: u16) -> Option<Seq<char>> {
    if key == IDS_WINDOW_CAPTION {
        Some("起引台語打字法設置"@)
    } else if key == IDD_APPEARANCETAB {
        Some("外皮"@)
    } else if key == IDL_COLOR {
        Some("色水："@)
    } else if key == IDS_LIGHT_THEME {
        Some("白底"@)
    } else if key == IDS_DARK_THEME {
        Some("烏底"@)
    } else if key == IDL_CANDIDATE_SIZE {
        Some("揀字大細："@)
    } else if key == IDL_CANDIDATE_SIZE_S {
        Some("Khah 細"@)
    } else if key == IDL_CANDIDATE_SIZE_L {
        Some("Khah 大"@)
    } else if key == IDL_EDIT_TRY {
        Some("打看覓仔："@)
    } else if key == IDL_DISPLAY_LANGUAGE {
        Some("介面語言 (Display Language)："@)
    } else if key == IDS_DISPLAY_LANGUAGE_EN {
        Some("英語 (English)"@)
    } else if key == IDS_DISPLAY_LANGUAGE_HANLO {
        Some("漢羅台"@)
    } else if key == IDS_DISPLAY_LANGUAGE_LO {
        Some("Lô-jī Tâi"@)
    } else {
        None
    }
}

/// The interface text for `key` in `locale`, if there is one.
pub open spec fn spec_text(locale: Locale, key: u16) -> Option<Seq<char>> {
    match locale {
        Locale::EN => spec_text_en(key),
        Locale::OAN => spec_text_oan(key),
    }
}

/// The text for `key` in `locale`, or the key's number when there is none.
pub open spec fn spec_translate(locale: Locale, key: u16) -> Seq<char> {
    match spec_text(locale, key) {
        Some(v) => v,
        None => decimal(key as nat),
    }
}

fn text_en(key: u16) -> (r: Option<&'static str>)
    ensures
        match r {
            Some(v) => spec_text_en(key) == Some(v@),
            None => spec_text_en(key) is None,
        },
{
    if key == IDS_WINDOW_CAPTION {
        Some("Khíín Taiwanese IME Settings")
    } else if key == IDD_APPEARANCETAB {
        Some("Display")
    } else if key == IDL_COLOR {
        Some("Colors:")
    } else if key == IDS_LIGHT_THEME {
        Some("Light")
    } else if key == IDS_DARK_THEME {
        Some("Dark")
    } else if key == IDL_CANDIDATE_SIZE {
        Some("Candidate font size:")
    } else if key == IDL_CANDIDATE_SIZE_S {
        Some("Smaller")
    } else if key == IDL_CANDIDATE_SIZE_L {
        Some("Larger")
    } else if key == IDL_DISPLAY_LANGUAGE {
        Some("Display language (介面語言):")
    } else if key == IDS_DISPLAY_LANGUAGE_EN {
        Some("English")
    } else if key == IDS_DISPLAY_LANGUAGE_HANLO {
        Some("漢羅台 (Hanlo Taiwanese)")
    } else if key == IDS_DISPLAY_LANGUAGE_LO {
        Some("Lô-jī Tâi (Romanized Taiwanese)")
    } else if key == IDL_EDIT_TRY {
        Some("Try it:")
    } else {
        None
    }
}

fn text_oan(key: u16) -> (r: Option<&'static str>)
    ensures
        match r {
            Some(v) => spec_text_oan(key) == Some(v@),
            None => spec_text_oan(key) is None,
        },
{
    if key == IDS_WINDOW_CAPTION {
        Some("起引台語打字法設置")
    } else if key == IDD_APPEARANCETAB {
        Some("外皮")
    } else if key == IDL_COLOR {
        Some("色水：")
    } else if key == IDS_LIGHT_THEME {
        Some("白底")
    } else if key == IDS_DARK_THEME {
        Some("烏底")
    } else if key == IDL_CANDIDATE_SIZE {
        Some("揀字大細：")
    } else if key == IDL_CANDIDATE_SIZE_S {
        Some("Khah 細")
    } else if key == IDL_CANDIDATE_SIZE_L {
        Some("Khah 大")
    } else if key == IDL_EDIT_TRY {
        Some("打看覓仔：")
    } else if key == IDL_DISPLAY_LANGUAGE {
        Some("介面語言 (Display Language)：")
    } else if key == IDS_DISPLAY_LANGUAGE_EN {
        Some("英語 (English)")
    } else if key == IDS_DISPLAY_LANGUAGE_HANLO {
        Some("漢羅台")
    } else if key == IDS_DISPLAY_LANGUAGE_LO {
        Some("Lô-jī Tâi")
    } else {
        None
    }
}

/// Gets the interface text for the resource `key` in `locale`; a missing
/// text gives back the key's number.
pub fn translate(locale: Locale, key: u16) -> (r: String)
    ensures
        r@ == spec_translate(locale, key),
{
    let found = match locale {
        Locale::EN => text_en(key),
        Locale::OAN => text_oan(key),
    };
    match found {
        Some(value) => String::from_str(value),
        None => decimal_string(key),
    }
}

/// The locale the settings start in.
pub fn default_locale() -> (r: Locale)
    ensures
        r == Locale::EN,
{
    Locale::EN
}

/// Makes `locale` the current locale.
pub fn set_locale(current: &mut Locale, locale: Locale)
    ensures
        *final(current) == locale,
{
    *current = locale;
}

/// Gets the interface text for `key` in the current locale.
pub fn t(current: &Locale, key: u16) -> (r: String)
    ensures
        r@ == spec_translate(*current, key),
{
    translate(*current, key)
}

} // verus!
