use vstd::prelude::*;

verus! {

// Resource identifiers of the settings dialogs.

pub const IDS_WINDOW_CAPTION: u16 = 1001;
pub const IDD_APPEARANCETAB: u16 = 101;
pub const IDL_COLOR: u16 = 1002;
pub const IDS_LIGHT_THEME: u16 = 1003;
pub const IDS_DARK_THEME: u16 = 1004;
pub const IDL_CANDIDATE_SIZE: u16 = 1005;
pub const IDL_CANDIDATE_SIZE_S: u16 = 1006;
pub const IDL_CANDIDATE_SIZE_L: u16 = 1007;
pub const IDL_DISPLAY_LANGUAGE: u16 = 1008;
pub const IDS_DISPLAY_LANGUAGE_EN: u16 = 1009;
pub const IDS_DISPLAY_LANGUAGE_HANLO: u16 = 1010;
pub const IDS_DISPLAY_LANGUAGE_LO: u16 = 1011;
pub const IDL_EDIT_TRY: u16 = 1012;
pub const IDD_INPUTTAB: u16 = 102;
pub const IDL_INPUTMODE: u16 = 1013;
pub const IDC_INPUTMODE_CONTINUOUS: u16 = 1014;
pub const IDC_INPUTMODE_BASIC: u16 = 1015;
pub const IDC_INPUTMODE_PRO: u16 = 1016;
pub const IDL_INPUTMODE_HOTKEY: u16 = 1017;
pub const IDS_INPUTMODE_KEY_CTRL_PERIOD: u16 = 1018;
pub const IDS_INPUTMODE_KEY_CTRL_BACKTICK: u16 = 1019;
pub const IDL_ON_OFF_HOTKEY: u16 = 1020;
pub const IDS_ON_OFF_HOTKEY_ALTBACKTICK: u16 = 1021;
pub const IDS_ON_OFF_HOTKEY_SHIFT: u16 = 1022;
pub const IDL_TONE_KEYS: u16 = 1023;
pub const IDS_TONE_KEYS_NUMERIC: u16 = 1024;
pub const IDS_TONE_KEYS_TELEX: u16 = 1025;
pub const IDL_DOTTED_O_KEY: u16 = 1026;
pub const IDS_DOTTED_O_OU: u16 = 1027;
pub const IDS_DOTTED_O_OO: u16 = 1028;
pub const IDS_DOTTED_O_Y: u16 = 1029;
pub const IDL_NASAL_KEY: u16 = 1030;
pub const IDS_NASAL_NN: u16 = 1031;
pub const IDS_NASAL_V: u16 = 1032;
pub const IDC_OPTION_UPPERCASE_NASAL: u16 = 1033;
pub const IDC_OPTION_DOTTED_KHIN: u16 = 1034;
pub const IDC_OPTION_AUTOKHIN: u16 = 1035;
pub const IDC_OPTION_EASY_CH: u16 = 1036;
pub const IDL_DEFAULT_PUNCTUATION: u16 = 1037;
pub const IDS_PUNCT_FULL_WIDTH: u16 = 1038;
pub const IDS_PUNCT_HALF_WIDTH: u16 = 1039;
pub const IDL_HYPHEN_KEY: u16 = 1040;
pub const IDS_HYPHEN_KEY_HYPHEN: u16 = 1041;
pub const IDS_HYPHEN_KEY_V: u16 = 1042;
pub const IDD_DICTIONARYTAB: u16 = 103;
pub const IDL_RESET_USERDATA: u16 = 1043;
pub const IDC_RESET_USERDATA_BTN: u16 = 1044;
pub const IDL_RESET_USERDATA_BTN_DONE: u16 = 1045;
pub const IDL_EDIT_USERDICT: u16 = 1046;
pub const IDC_EDIT_USEDICT_BTN: u16 = 1047;
pub const IDD_ABOUTTAB: u16 = 104;
pub const IDL_KHIIN_VERSION: u16 = 1048;
pub const IDL_KHIIN_COPYRIGHT: u16 = 1049;
pub const IDC_COMBOBOX_THEME_COLOR: u16 = 2001;
pub const IDC_DISPLAY_LANGUAGE: u16 = 2002;
pub const IDC_INPUTMODE_KEY_COMBO: u16 = 2003;
pub const IDC_ON_OFF_HOTKEY_COMBO: u16 = 2004;
pub const IDC_PUNCTUATION_COMBO: u16 = 2005;
pub const IDC_TONE_KEYS_COMBO: u16 = 2006;
pub const IDC_NASAL_KEY_COMBO: u16 = 2007;
pub const IDC_DOTTED_O_KEY_COMBO: u16 = 2008;
pub const IDC_HYPHEN_KEY_COMBO: u16 = 2009;

} // verus!
