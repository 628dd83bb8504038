use vstd::prelude::*;
use vstd::string::StringExecFns;

use crate::text::decimal;
use crate::text::decimal_string;
use crate::settings_resource::IDS_WINDOW_CAPTION;
use crate::settings_resource::IDD_APPEARANCETAB;
use crate::settings_resource::IDL_COLOR;
use crate::settings_resource::IDS_LIGHT_THEME;
use crate::settings_resource::IDS_DARK_THEME;
use crate::settings_resource::IDL_CANDIDATE_SIZE;
use crate::settings_resource::IDL_CANDIDATE_SIZE_S;
use crate::settings_resource::IDL_CANDIDATE_SIZE_L;
use crate::settings_resource::IDL_DISPLAY_LANGUAGE;
use crate::settings_resource::IDS_DISPLAY_LANGUAGE_EN;
use crate::settings_resource::IDS_DISPLAY_LANGUAGE_HANLO;
use crate::settings_resource::IDS_DISPLAY_LANGUAGE_LO;
use crate::settings_resource::IDL_EDIT_TRY;
use crate::settings_resource::IDD_INPUTTAB;
use crate::settings_resource::IDL_INPUTMODE;
use crate::settings_resource::IDC_INPUTMODE_CONTINUOUS;
use crate::settings_resource::IDC_INPUTMODE_BASIC;
use crate::settings_resource::IDC_INPUTMODE_PRO;
use crate::settings_resource::IDL_INPUTMODE_HOTKEY;
use crate::settings_resource::IDS_INPUTMODE_KEY_CTRL_PERIOD;
use crate::settings_resource::IDS_INPUTMODE_KEY_CTRL_BACKTICK;
use crate::settings_resource::IDL_ON_OFF_HOTKEY;
use crate::settings_resource::IDS_ON_OFF_HOTKEY_ALTBACKTICK;
use crate::settings_resource::IDS_ON_OFF_HOTKEY_SHIFT;
use crate::settings_resource::IDL_TONE_KEYS;
use crate::settings_resource::IDS_TONE_KEYS_NUMERIC;
use crate::settings_resource::IDS_TONE_KEYS_TELEX;
use crate::settings_resource::IDL_DOTTED_O_KEY;
use crate::settings_resource::IDS_DOTTED_O_OU;
use crate::settings_resource::IDS_DOTTED_O_OO;
use crate::settings_resource::IDS_DOTTED_O_Y;
use crate::settings_resource::IDL_NASAL_KEY;
use crate::settings_resource::IDS_NASAL_NN;
use crate::settings_resource::IDS_NASAL_V;
use crate::settings_resource::IDC_OPTION_UPPERCASE_NASAL;
use crate::settings_resource::IDC_OPTION_DOTTED_KHIN;
use crate::settings_resource::IDC_OPTION_AUTOKHIN;
use crate::settings_resource::IDC_OPTION_EASY_CH;
use crate::settings_resource::IDL_DEFAULT_PUNCTUATION;
use crate::settings_resource::IDS_PUNCT_FULL_WIDTH;
use crate::settings_resource::IDS_PUNCT_HALF_WIDTH;
use crate::settings_resource::IDL_HYPHEN_KEY;
use crate::settings_resource::IDS_HYPHEN_KEY_HYPHEN;
use crate::settings_resource::IDS_HYPHEN_KEY_V;
use crate::settings_resource::IDD_DICTIONARYTAB;
use crate::settings_resource::IDL_RESET_USERDATA;
use crate::settings_resource::IDC_RESET_USERDATA_BTN;
use crate::settings_resource::IDL_RESET_USERDATA_BTN_DONE;
use crate::settings_resource::IDL_EDIT_USERDICT;
use crate::settings_resource::IDC_EDIT_USEDICT_BTN;
use crate::settings_resource::IDD_ABOUTTAB;
use crate::settings_resource::IDL_KHIIN_VERSION;
use crate::settings_resource::IDL_KHIIN_COPYRIGHT;

verus! {

/// The interface languages of the settings application.
#[derive(PartialEq, Eq, Structural, Clone, Copy, Debug)]
#[allow(non_camel_case_types)]
pub enum Locale {
    EN,
    OAN,
}

/// The English interface texts.
pub open spec fn spec_text_en(key: u16) -> Option<Seq<char>> {
    if key == IDS_WINDOW_CAPTION {
        Some("Khíín Taiwanese IME Settings"@)
    } else if key == IDD_APPEARANCETAB {
        Some("Display"@)
    } else if key == IDL_COLOR {
        Some("Colors:"@)
    } else if key == IDS_LIGHT_THEME {
        Some("Light"@)
    } else if key == IDS_DARK_THEME {
        Some("Dark"@)
    } else if key == IDL_CANDIDATE_SIZE {
        Some("Candidate font size:"@)
    } else if key == IDL_CANDIDATE_SIZE_S {
        Some("Smaller"@)
    } else if key == IDL_CANDIDATE_SIZE_L {
        Some("Larger"@)
    } else if key == IDL_DISPLAY_LANGUAGE {
        Some("Display language (介面語言):"@)
    } else if key == IDS_DISPLAY_LANGUAGE_EN {
        Some("English"@)
    } else if key == IDS_DISPLAY_LANGUAGE_HANLO {
        Some("漢羅台 (Hanlo Taiwanese)"@)
    } else if key == IDS_DISPLAY_LANGUAGE_LO {
        Some("Lô-jī Tâi (Romanized Taiwanese)"@)
    } else if key == IDL_EDIT_TRY {
        Some("Try it:"@)
    } else if key == IDD_INPUTTAB {
        Some("Input"@)
    } else if key == IDL_INPUTMODE {
        Some("Input Mode"@)
    } else if key == IDC_INPUTMODE_CONTINUOUS {
        Some("Continuous: just keep typing"@)
    } else if key == IDC_INPUTMODE_BASIC {
        Some("Basic: one word at a time"@)
    } else if key == IDC_INPUTMODE_PRO {
        Some("Manual: no assistance from the IME"@)
    } else if key == IDL_INPUTMODE_HOTKEY {
        Some("Switch mode:"@)
    } else if key == IDS_INPUTMODE_KEY_CTRL_PERIOD {
        Some("ctrl + ."@)
    } else if key == IDS_INPUTMODE_KEY_CTRL_BACKTICK {
        Some("ctrl + ` (~)"@)
    } else if key == IDL_ON_OFF_HOTKEY {
        Some("IME quick on/off:"@)
    } else if key == IDS_ON_OFF_HOTKEY_ALTBACKTICK {
        Some("alt + ` (~)"@)
    } else if key == IDS_ON_OFF_HOTKEY_SHIFT {
        Some("shift"@)
    } else if key == IDL_TONE_KEYS {
        Some("Tone keys:"@)
    } else if key == IDS_TONE_KEYS_NUMERIC {
        Some("Numeric: 2 3 5 7 8 9 0"@)
    } else if key == IDS_TONE_KEYS_TELEX {
        Some("Telex: s f l j j w q"@)
    } else if key == IDL_DOTTED_O_KEY {
        Some("Input o͘ :"@)
    } else if key == IDS_DOTTED_O_OU {
        Some("ou"@)
    } else if key == IDS_DOTTED_O_OO {
        Some("oo"@)
    } else if key == IDS_DOTTED_O_Y {
        Some("y"@)
    } else if key == IDL_NASAL_KEY {
        Some("Input ⁿ :"@)
    } else if key == IDS_NASAL_NN {
        Some("nn"@)
    } else if key == IDS_NASAL_V {
        Some("v"@)
    } else if key == IDC_OPTION_UPPERCASE_NASAL {
        Some("Use upper ᴺ"@)
    } else if key == IDC_OPTION_DOTTED_KHIN {
        Some("Convert -- to · (khin dot)"@)
    } else if key == IDC_OPTION_AUTOKHIN {
        Some("Auto khin following syllables"@)
    } else if key == IDC_OPTION_EASY_CH {
        Some("EZ ch (type c for ch)"@)
    } else if key == IDL_DEFAULT_PUNCTUATION {
        Some("Default Punctuation"@)
    } else if key == IDS_PUNCT_FULL_WIDTH {
        Some("Full width (。、！)"@)
    } else if key == IDS_PUNCT_HALF_WIDTH {
        Some("Half width (. , !)"@)
    } else if key == IDL_HYPHEN_KEY {
        Some("Input -:"@)
    } else if key == IDS_HYPHEN_KEY_HYPHEN {
        Some("-"@)
    } else if key == IDS_HYPHEN_KEY_V {
        Some("v"@)
    } else if key == IDD_DICTIONARYTAB {
        Some("Dictionary"@)
    } else if key == IDL_RESET_USERDATA {
        Some("Clear input history:\n\nKhíín uses your typing history to improve candidate prediction.\n\nWARNING: clearing this history cannot be undone!"@)
    } else if key == IDC_RESET_USERDATA_BTN {
        Some("Clear Now"@)
    } else if key == IDL_RESET_USERDATA_BTN_DONE {
        Some("Cleared!"@)
    } else if key == IDL_EDIT_USERDICT {
        Some("Custom dictionary:\n\n • One entry per line.\n • Format as <input output> (space between).\n • Input must be letters or numbers.\n • Output can be any words or symbols."@)
    } else if key == IDC_EDIT_USEDICT_BTN {
        Some("Open File"@)
    } else if key == IDD_ABOUTTAB {
        Some("About"@)
    } else if key == IDL_KHIIN_VERSION {
        Some("Khíín PJH v0.1.0"@)
    } else if key == IDL_KHIIN_COPYRIGHT {
        Some("Released under the MIT license"@)
    } else {
        None
    }
}

/// The Taiwanese interface texts.
pub open spec fn spec_text_oan(key: u16) -> Option<Seq<char>> {
    if key == IDS_WINDOW_CAPTION {
        Some("起引台語打字法設置"@)
    } else if key == IDD_APPEARANCETAB {
        Some("外皮"@)
    } else if key == IDL_COLOR {
        Some("色水："@)
    } else if key == IDS_LIGHT_THEME {
        Some("白底"@)
    } else if key == IDS_DARK_THEME {
        Some("烏底"@)
    } else if key == IDL_CANDIDATE_SIZE {
        Some("揀字大細："@)
    } else if key == IDL_CANDIDATE_SIZE_S {
        Some("Khah 細"@)
    } else if key == IDL_CANDIDATE_SIZE_L {
        Some("Khah 大"@)
    } else if key == IDL_EDIT_TRY {
        Some("打看覓仔："@)
    } else if key == IDL_DISPLAY_LANGUAGE {
        Some("介面語言 (Display Language)："@)
    } else if key == IDS_DISPLAY_LANGUAGE_EN {
        Some("英語 (English)"@)
    } else if key == IDS_DISPLAY_LANGUAGE_HANLO {
        Some("漢羅台"@)
    } else if key == IDS_DISPLAY_LANGUAGE_LO {
        Some("Lô-jī Tâi"@)
    } else if key == IDD_INPUTTAB {
        Some("打字"@)
    } else if key == IDL_INPUTMODE {
        Some("打字模式"@)
    } else if key == IDC_INPUTMODE_CONTINUOUS {
        Some("自：電腦自動切語詞"@)
    } else if key == IDC_INPUTMODE_BASIC {
        Some("揀：我切語詞、電腦鬥揀字"@)
    } else if key == IDC_INPUTMODE_PRO {
        Some("手：電腦無鬥相共"@)
    } else if key == IDL_INPUTMODE_HOTKEY {
        Some("換打字模式："@)
    } else if key == IDS_INPUTMODE_KEY_CTRL_PERIOD {
        Some("ctrl + ."@)
    } else if key == IDS_INPUTMODE_KEY_CTRL_BACKTICK {
        Some("ctrl + ` (~)"@)
    } else if key == IDL_ON_OFF_HOTKEY {
        Some("打字法切掉．点灱："@)
    } else if key == IDS_ON_OFF_HOTKEY_ALTBACKTICK {
        Some("alt + ` (~)"@)
    } else if key == IDS_ON_OFF_HOTKEY_SHIFT {
        Some("shift"@)
    } else if key == IDL_TONE_KEYS {
        Some("調号："@)
    } else if key == IDS_TONE_KEYS_NUMERIC {
        Some("打數字： 2 3 5 7 8 9 0"@)
    } else if key == IDS_TONE_KEYS_TELEX {
        Some("Telex： s f l j j w q"@)
    } else if key == IDL_DOTTED_O_KEY {
        Some("打「o͘」："@)
    } else if key == IDS_DOTTED_O_OU {
        Some("ou"@)
    } else if key == IDS_DOTTED_O_OO {
        Some("oo"@)
    } else if key == IDS_DOTTED_O_Y {
        Some("y"@)
    } else if key == IDL_NASAL_KEY {
        Some("打「ⁿ」："@)
    } else if key == IDS_NASAL_NN {
        Some("nn"@)
    } else if key == IDS_NASAL_V {
        Some("v"@)
    } else if key == IDC_OPTION_UPPERCASE_NASAL {
        Some("使用大本「ᴺ」"@)
    } else if key == IDC_OPTION_DOTTED_KHIN {
        Some("「--」換「·」：打双連劃共換做輕点"@)
    } else if key == IDC_OPTION_AUTOKHIN {
        Some("打輕了後、自動共後者變輕"@)
    } else if key == IDC_OPTION_EASY_CH {
        Some("「c」換「ch」：打 c 自動加一个 h"@)
    } else if key == IDL_DEFAULT_PUNCTUATION {
        Some("標点符号："@)
    } else if key == IDS_PUNCT_FULL_WIDTH {
        Some("全 (漢字式 。、！)"@)
    } else if key == IDS_PUNCT_HALF_WIDTH {
        Some("半 (羅字式 . , !)"@)
    } else if key == IDL_HYPHEN_KEY {
        Some("連劃「-」："@)
    } else if key == IDS_HYPHEN_KEY_HYPHEN {
        Some("-"@)
    } else if key == IDS_HYPHEN_KEY_V {
        Some("v"@)
    } else if key == IDD_DICTIONARYTAB {
        Some("詞庫"@)
    } else if key == IDL_RESET_USERDATA {
        Some("清使用者打字統計。注！袂使 UNDO。"@)
    } else if key == IDC_RESET_USERDATA_BTN {
        Some("Liâm-mi 清掉"@)
    } else if key == IDL_RESET_USERDATA_BTN_DONE {
        Some("清好啞"@)
    } else if key == IDL_EDIT_USERDICT {
        Some("使用者 ka-kī ê 資料庫"@)
    } else if key == IDC_EDIT_USEDICT_BTN {
        Some("編輯"@)
    } else if key == IDD_ABOUTTAB {
        Some("起引"@)
    } else if key == IDL_KHIIN_VERSION {
        Some("起引打字法 v0.1.0"@)
    } else if key == IDL_KHIIN_COPYRIGHT {
        Some("Released under the MIT license"@)
    } else {
        None
    }
}

/// The interface text for `key` in `locale`, if there is one.
pub open spec fn spec_text(locale: Locale, key: u16) -> Option<Seq<char>> {
    match locale {
        Locale::EN => spec_text_en(key),
        Locale::OAN => spec_text_oan(key),
    }
}

/// The text for `key` in `locale`, or the key's number when there is none.
pub open spec fn spec_translate(locale: Locale, key: u16) -> Seq<char> {
    match spec_text(locale, key) {
        Some(v) => v,
        None => decimal(key as nat),
    }
}

fn text_en(key: u16) -> (r: Option<&'static str>)
    ensures
        match r {
            Some(v) => spec_text_en(key) == Some(v@),
            None => spec_text_en(key) is None,
        },
{
    if key == IDS_WINDOW_CAPTION {
        Some("Khíín Taiwanese IME Settings")
    } else if key == IDD_APPEARANCETAB {
        Some("Display")
    } else if key == IDL_COLOR {
        Some("Colors:")
    } else if key == IDS_LIGHT_THEME {
        Some("Light")
    } else if key == IDS_DARK_THEME {
        Some("Dark")
    } else if key == IDL_CANDIDATE_SIZE {
        Some("Candidate font size:")
    } else if key == IDL_CANDIDATE_SIZE_S {
        Some("Smaller")
    } else if key == IDL_CANDIDATE_SIZE_L {
        Some("Larger")
    } else if key == IDL_DISPLAY_LANGUAGE {
        Some("Display language (介面語言):")
    } else if key == IDS_DISPLAY_LANGUAGE_EN {
        Some("English")
    } else if key == IDS_DISPLAY_LANGUAGE_HANLO {
        Some("漢羅台 (Hanlo Taiwanese)")
    } else if key == IDS_DISPLAY_LANGUAGE_LO {
        Some("Lô-jī Tâi (Romanized Taiwanese)")
    } else if key == IDL_EDIT_TRY {
        Some("Try it:")
    } else if key == IDD_INPUTTAB {
        Some("Input")
    } else if key == IDL_INPUTMODE {
        Some("Input Mode")
    } else if key == IDC_INPUTMODE_CONTINUOUS {
        Some("Continuous: just keep typing")
    } else if key == IDC_INPUTMODE_BASIC {
        Some("Basic: one word at a time")
    } else if key == IDC_INPUTMODE_PRO {
        Some("Manual: no assistance from the IME")
    } else if key == IDL_INPUTMODE_HOTKEY {
        Some("Switch mode:")
    } else if key == IDS_INPUTMODE_KEY_CTRL_PERIOD {
        Some("ctrl + .")
    } else if key == IDS_INPUTMODE_KEY_CTRL_BACKTICK {
        Some("ctrl + ` (~)")
    } else if key == IDL_ON_OFF_HOTKEY {
        Some("IME quick on/off:")
    } else if key == IDS_ON_OFF_HOTKEY_ALTBACKTICK {
        Some("alt + ` (~)")
    } else if key == IDS_ON_OFF_HOTKEY_SHIFT {
        Some("shift")
    } else if key == IDL_TONE_KEYS {
        Some("Tone keys:")
    } else if key == IDS_TONE_KEYS_NUMERIC {
        Some("Numeric: 2 3 5 7 8 9 0")
    } else if key == IDS_TONE_KEYS_TELEX {
        Some("Telex: s f l j j w q")
    } else if key == IDL_DOTTED_O_KEY {
        Some("Input o͘ :")
    } else if key == IDS_DOTTED_O_OU {
        Some("ou")
    } else if key == IDS_DOTTED_O_OO {
        Some("oo")
    } else if key == IDS_DOTTED_O_Y {
        Some("y")
    } else if key == IDL_NASAL_KEY {
        Some("Input ⁿ :")
    } else if key == IDS_NASAL_NN {
        Some("nn")
    } else if key == IDS_NASAL_V {
        Some("v")
    } else if key == IDC_OPTION_UPPERCASE_NASAL {
        Some("Use upper ᴺ")
    } else if key == IDC_OPTION_DOTTED_KHIN {
        Some("Convert -- to · (khin dot)")
    } else if key == IDC_OPTION_AUTOKHIN {
        Some("Auto khin following syllables")
    } else if key == IDC_OPTION_EASY_CH {
        Some("EZ ch (type c for ch)")
    } else if key == IDL_DEFAULT_PUNCTUATION {
        Some("Default Punctuation")
    } else if key == IDS_PUNCT_FULL_WIDTH {
        Some("Full width (。、！)")
    } else if key == IDS_PUNCT_HALF_WIDTH {
        Some("Half width (. , !)")
    } else if key == IDL_HYPHEN_KEY {
        Some("Input -:")
    } else if key == IDS_HYPHEN_KEY_HYPHEN {
        Some("-")
    } else if key == IDS_HYPHEN_KEY_V {
        Some("v")
    } else if key == IDD_DICTIONARYTAB {
        Some("Dictionary")
    } else if key == IDL_RESET_USERDATA {
        Some("Clear input history:\n\nKhíín uses your typing history to improve candidate prediction.\n\nWARNING: clearing this history cannot be undone!")
    } else if key == IDC_RESET_USERDATA_BTN {
        Some("Clear Now")
    } else if key == IDL_RESET_USERDATA_BTN_DONE {
        Some("Cleared!")
    } else if key == IDL_EDIT_USERDICT {
        Some("Custom dictionary:\n\n • One entry per line.\n • Format as <input output> (space between).\n • Input must be letters or numbers.\n • Output can be any words or symbols.")
    } else if key == IDC_EDIT_USEDICT_BTN {
        Some("Open File")
    } else if key == IDD_ABOUTTAB {
        Some("About")
    } else if key == IDL_KHIIN_VERSION {
        Some("Khíín PJH v0.1.0")
    } else if key == IDL_KHIIN_COPYRIGHT {
        Some("Released under the MIT license")
    } else {
        None
    }
}

fn text_oan(key: u16) -> (r: Option<&'static str>)
    ensures
        match r {
            Some(v) => spec_text_oan(key) == Some(v@),
            None => spec_text_oan(key) is None,
        },
{
    if key == IDS_WINDOW_CAPTION {
        Some("起引台語打字法設置")
    } else if key == IDD_APPEARANCETAB {
        Some("外皮")
    } else if key == IDL_COLOR {
        Some("色水：")
    } else if key == IDS_LIGHT_THEME {
        Some("白底")
    } else if key == IDS_DARK_THEME {
        Some("烏底")
    } else if key == IDL_CANDIDATE_SIZE {
        Some("揀字大細：")
    } else if key == IDL_CANDIDATE_SIZE_S {
        Some("Khah 細")
    } else if key == IDL_CANDIDATE_SIZE_L {
        Some("Khah 大")
    } else if key == IDL_EDIT_TRY {
        Some("打看覓仔：")
    } else if key == IDL_DISPLAY_LANGUAGE {
        Some("介面語言 (Display Language)：")
    } else if key == IDS_DISPLAY_LANGUAGE_EN {
        Some("英語 (English)")
    } else if key == IDS_DISPLAY_LANGUAGE_HANLO {
        Some("漢羅台")
    } else if key == IDS_DISPLAY_LANGUAGE_LO {
        Some("Lô-jī Tâi")
    } else if key == IDD_INPUTTAB {
        Some("打字")
    } else if key == IDL_INPUTMODE {
        Some("打字模式")
    } else if key == IDC_INPUTMODE_CONTINUOUS {
        Some("自：電腦自動切語詞")
    } else if key == IDC_INPUTMODE_BASIC {
        Some("揀：我切語詞、電腦鬥揀字")
    } else if key == IDC_INPUTMODE_PRO {
        Some("手：電腦無鬥相共")
    } else if key == IDL_INPUTMODE_HOTKEY {
        Some("換打字模式：")
    } else if key == IDS_INPUTMODE_KEY_CTRL_PERIOD {
        Some("ctrl + .")
    } else if key == IDS_INPUTMODE_KEY_CTRL_BACKTICK {
        Some("ctrl + ` (~)")
    } else if key == IDL_ON_OFF_HOTKEY {
        Some("打字法切掉．点灱：")
    } else if key == IDS_ON_OFF_HOTKEY_ALTBACKTICK {
        Some("alt + ` (~)")
    } else if key == IDS_ON_OFF_HOTKEY_SHIFT {
        Some("shift")
    } else if key == IDL_TONE_KEYS {
        Some("調号：")
    } else if key == IDS_TONE_KEYS_NUMERIC {
        Some("打數字： 2 3 5 7 8 9 0")
    } else if key == IDS_TONE_KEYS_TELEX {
        Some("Telex： s f l j j w q")
    } else if key == IDL_DOTTED_O_KEY {
        Some("打「o͘」：")
    } else if key == IDS_DOTTED_O_OU {
        Some("ou")
    } else if key == IDS_DOTTED_O_OO {
        Some("oo")
    } else if key == IDS_DOTTED_O_Y {
        Some("y")
    } else if key == IDL_NASAL_KEY {
        Some("打「ⁿ」：")
    } else if key == IDS_NASAL_NN {
        Some("nn")
    } else if key == IDS_NASAL_V {
        Some("v")
    } else if key == IDC_OPTION_UPPERCASE_NASAL {
        Some("使用大本「ᴺ」")
    } else if key == IDC_OPTION_DOTTED_KHIN {
        Some("「--」換「·」：打双連劃共換做輕点")
    } else if key == IDC_OPTION_AUTOKHIN {
        Some("打輕了後、自動共後者變輕")
    } else if key == IDC_OPTION_EASY_CH {
        Some("「c」換「ch」：打 c 自動加一个 h")
    } else if key == IDL_DEFAULT_PUNCTUATION {
        Some("標点符号：")
    } else if key == IDS_PUNCT_FULL_WIDTH {
        Some("全 (漢字式 。、！)")
    } else if key == IDS_PUNCT_HALF_WIDTH {
        Some("半 (羅字式 . , !)")
    } else if key == IDL_HYPHEN_KEY {
        Some("連劃「-」：")
    } else if key == IDS_HYPHEN_KEY_HYPHEN {
        Some("-")
    } else if key == IDS_HYPHEN_KEY_V {
        Some("v")
    } else if key == IDD_DICTIONARYTAB {
        Some("詞庫")
    } else if key == IDL_RESET_USERDATA {
        Some("清使用者打字統計。注！袂使 UNDO。")
    } else if key == IDC_RESET_USERDATA_BTN {
        Some("Liâm-mi 清掉")
    } else if key == IDL_RESET_USERDATA_BTN_DONE {
        Some("清好啞")
    } else if key == IDL_EDIT_USERDICT {
        Some("使用者 ka-kī ê 資料庫")
    } else if key == IDC_EDIT_USEDICT_BTN {
        Some("編輯")
    } else if key == IDD_ABOUTTAB {
        Some("起引")
    } else if key == IDL_KHIIN_VERSION {
        Some("起引打字法 v0.1.0")
    } else if key == IDL_KHIIN_COPYRIGHT {
        Some("Released under the MIT license")
    } else {
        None
    }
}

/// Gets the interface text for the resource `key` in `locale`; a missing
/// text gives back the key's number.
pub fn translate(locale: Locale, key: u16) -> (r: String)
    ensures
        r@ == spec_translate(locale, key),
{
    let found = match locale {
        Locale::EN => text_en(key),
        Locale::OAN => text_oan(key),
    };
    match found {
        Some(value) => String::from_str(value),
        None => decimal_string(key),
    }
}

/// The locale the settings start in.
pub fn default_locale() -> (r: Locale)
    ensures
        r == Locale::EN,
{
    Locale::EN
}

/// Makes `locale` the current locale.
pub fn set_locale(current: &mut Locale, locale: Locale)
    ensures
        *final(current) == locale,
{
    *current = locale;
}

/// Gets the interface text for `key` in the current locale.
pub fn t(current: &Locale, key: u16) -> (r: String)
    ensures
        r@ == spec_translate(*current, key),
{
    translate(*current, key)
}

/// The options of the display page's lists are labelled in order: the colour
/// themes read "Light" then "Dark" in English and 白底 then 烏底 in Taiwanese,
/// and the display languages "English" then "漢羅台 (Hanlo Taiwanese)".
pub proof fn lemma_display_option_labels()
    ensures
        spec_translate(Locale::EN, IDS_LIGHT_THEME) == "Light"@,
        spec_translate(Locale::EN, IDS_DARK_THEME) == "Dark"@,
        spec_translate(Locale::OAN, IDS_LIGHT_THEME) == "白底"@,
        spec_translate(Locale::OAN, IDS_DARK_THEME) == "烏底"@,
        spec_translate(Locale::EN, IDS_DISPLAY_LANGUAGE_EN) == "English"@,
        spec_translate(Locale::EN, IDS_DISPLAY_LANGUAGE_HANLO) == "漢羅台 (Hanlo Taiwanese)"@,
{
}

/// The options of the input page's lists are labelled in order in English:
/// the mode-switch keys, the on/off keys, punctuation widths, tone keys, the
/// nasal key, the dotted-o key and the hyphen key.
pub proof fn lemma_input_option_labels()
    ensures
        spec_translate(Locale::EN, IDS_INPUTMODE_KEY_CTRL_PERIOD) == "ctrl + ."@,
        spec_translate(Locale::EN, IDS_INPUTMODE_KEY_CTRL_BACKTICK) == "ctrl + ` (~)"@,
        spec_translate(Locale::EN, IDS_ON_OFF_HOTKEY_ALTBACKTICK) == "alt + ` (~)"@,
        spec_translate(Locale::EN, IDS_ON_OFF_HOTKEY_SHIFT) == "shift"@,
        spec_translate(Locale::EN, IDS_PUNCT_FULL_WIDTH) == "Full width (。、！)"@,
        spec_translate(Locale::EN, IDS_PUNCT_HALF_WIDTH) == "Half width (. , !)"@,
        spec_translate(Locale::EN, IDS_TONE_KEYS_NUMERIC) == "Numeric: 2 3 5 7 8 9 0"@,
        spec_translate(Locale::EN, IDS_TONE_KEYS_TELEX) == "Telex: s f l j j w q"@,
        spec_translate(Locale::EN, IDS_NASAL_NN) == "nn"@,
        spec_translate(Locale::EN, IDS_NASAL_V) == "v"@,
        spec_translate(Locale::EN, IDS_DOTTED_O_OU) == "ou"@,
        spec_translate(Locale::EN, IDS_DOTTED_O_OO) == "oo"@,
        spec_translate(Locale::EN, IDS_HYPHEN_KEY_HYPHEN) == "-"@,
        spec_translate(Locale::EN, IDS_HYPHEN_KEY_V) == "v"@,
{
}

} // verus!
