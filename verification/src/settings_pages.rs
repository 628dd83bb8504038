use vstd::prelude::*;

use crate::settings_app_locales::spec_translate;
use crate::settings_app_locales::t;
use crate::settings_app_locales::Locale;
use crate::settings_resource::IDC_COMBOBOX_THEME_COLOR;
use crate::settings_resource::IDC_DISPLAY_LANGUAGE;
use crate::settings_resource::IDC_DOTTED_O_KEY_COMBO;
use crate::settings_resource::IDC_EDIT_USEDICT_BTN;
use crate::settings_resource::IDC_HYPHEN_KEY_COMBO;
use crate::settings_resource::IDC_INPUTMODE_BASIC;
use crate::settings_resource::IDC_INPUTMODE_CONTINUOUS;
use crate::settings_resource::IDC_INPUTMODE_KEY_COMBO;
use crate::settings_resource::IDC_INPUTMODE_PRO;
use crate::settings_resource::IDC_NASAL_KEY_COMBO;
use crate::settings_resource::IDC_ON_OFF_HOTKEY_COMBO;
use crate::settings_resource::IDC_OPTION_AUTOKHIN;
use crate::settings_resource::IDC_OPTION_DOTTED_KHIN;
use crate::settings_resource::IDC_OPTION_EASY_CH;
use crate::settings_resource::IDC_OPTION_UPPERCASE_NASAL;
use crate::settings_resource::IDC_PUNCTUATION_COMBO;
use crate::settings_resource::IDC_RESET_USERDATA_BTN;
use crate::settings_resource::IDC_TONE_KEYS_COMBO;
use crate::settings_resource::IDL_CANDIDATE_SIZE;
use crate::settings_resource::IDL_CANDIDATE_SIZE_L;
use crate::settings_resource::IDL_CANDIDATE_SIZE_S;
use crate::settings_resource::IDL_COLOR;
use crate::settings_resource::IDL_DEFAULT_PUNCTUATION;
use crate::settings_resource::IDL_DISPLAY_LANGUAGE;
use crate::settings_resource::IDL_DOTTED_O_KEY;
use crate::settings_resource::IDL_EDIT_TRY;
use crate::settings_resource::IDL_EDIT_USERDICT;
use crate::settings_resource::IDL_HYPHEN_KEY;
use crate::settings_resource::IDL_INPUTMODE;
use crate::settings_resource::IDL_INPUTMODE_HOTKEY;
use crate::settings_resource::IDL_KHIIN_COPYRIGHT;
use crate::settings_resource::IDL_KHIIN_VERSION;
use crate::settings_resource::IDL_NASAL_KEY;
use crate::settings_resource::IDL_ON_OFF_HOTKEY;
use crate::settings_resource::IDL_RESET_USERDATA;
use crate::settings_resource::IDL_TONE_KEYS;
use crate::settings_resource::IDS_DARK_THEME;
use crate::settings_resource::IDS_DISPLAY_LANGUAGE_EN;
use crate::settings_resource::IDS_DISPLAY_LANGUAGE_HANLO;
use crate::settings_resource::IDS_DOTTED_O_OO;
use crate::settings_resource::IDS_DOTTED_O_OU;
use crate::settings_resource::IDS_HYPHEN_KEY_HYPHEN;
use crate::settings_resource::IDS_HYPHEN_KEY_V;
use crate::settings_resource::IDS_INPUTMODE_KEY_CTRL_BACKTICK;
use crate::settings_resource::IDS_INPUTMODE_KEY_CTRL_PERIOD;
use crate::settings_resource::IDS_LIGHT_THEME;
use crate::settings_resource::IDS_NASAL_NN;
use crate::settings_resource::IDS_NASAL_V;
use crate::settings_resource::IDS_ON_OFF_HOTKEY_ALTBACKTICK;
use crate::settings_resource::IDS_ON_OFF_HOTKEY_SHIFT;
use crate::settings_resource::IDS_PUNCT_FULL_WIDTH;
use crate::settings_resource::IDS_PUNCT_HALF_WIDTH;
use crate::settings_resource::IDS_TONE_KEYS_NUMERIC;
use crate::settings_resource::IDS_TONE_KEYS_TELEX;
use crate::settings_resource::IDS_WINDOW_CAPTION;

verus! {

/// WM_INITDIALOG: a dialog page is about to be shown.
pub const WM_INITDIALOG: u32 = 0x0110;

/// A drop-down list of a settings page: its control, the texts of its
/// options in order, and the option selected at first.
#[derive(Debug)]
pub struct ComboBoxInit {
    pub control: u16,
    pub options: Vec<u16>,
    pub selected: usize,
}

/// What a settings page fills in when it is shown: the caption of the
/// settings window where the page sets it, the controls that show their own
/// text, and the drop-down lists.
#[derive(Debug)]
pub struct PageInit {
    pub caption: Option<u16>,
    pub labels: Vec<u16>,
    pub comboboxes: Vec<ComboBoxInit>,
}

fn combobox(control: u16, first: u16, second: u16) -> (r: ComboBoxInit)
    ensures
        r.control == control,
        r.options@ == seq![first, second],
        r.selected == 0,
{
    let mut options: Vec<u16> = Vec::new();
    options.push(first);
    options.push(second);
    ComboBoxInit { control, options, selected: 0 }
}

/// The appearance page: the window caption, six labels, and the lists of
/// colour themes and display languages.
pub fn style_page_init() -> (r: PageInit)
    ensures
        r.caption == Some(IDS_WINDOW_CAPTION),
        r.labels@ == seq![
            IDL_COLOR,
            IDL_CANDIDATE_SIZE,
            IDL_CANDIDATE_SIZE_S,
            IDL_CANDIDATE_SIZE_L,
            IDL_DISPLAY_LANGUAGE,
            IDL_EDIT_TRY,
        ],
        r.comboboxes@.len() == 2,
        r.comboboxes@[0].control == IDC_COMBOBOX_THEME_COLOR,
        r.comboboxes@[0].options@ == seq![IDS_LIGHT_THEME, IDS_DARK_THEME],
        r.comboboxes@[0].selected == 0,
        r.comboboxes@[1].control == IDC_DISPLAY_LANGUAGE,
        r.comboboxes@[1].options@ == seq![IDS_DISPLAY_LANGUAGE_EN, IDS_DISPLAY_LANGUAGE_HANLO],
        r.comboboxes@[1].selected == 0,
{
    let labels = vec![
        IDL_COLOR,
        IDL_CANDIDATE_SIZE,
        IDL_CANDIDATE_SIZE_S,
        IDL_CANDIDATE_SIZE_L,
        IDL_DISPLAY_LANGUAGE,
        IDL_EDIT_TRY,
    ];
    let mut comboboxes: Vec<ComboBoxInit> = Vec::new();
    comboboxes.push(combobox(IDC_COMBOBOX_THEME_COLOR, IDS_LIGHT_THEME, IDS_DARK_THEME));
    comboboxes.push(
        combobox(IDC_DISPLAY_LANGUAGE, IDS_DISPLAY_LANGUAGE_EN, IDS_DISPLAY_LANGUAGE_HANLO),
    );
    PageInit { caption: Some(IDS_WINDOW_CAPTION), labels, comboboxes }
}

/// The input page: fifteen labels and seven lists of key and option choices.
pub fn input_page_init() -> (r: PageInit)
    ensures
        r.caption is None,
        r.labels@ == seq![
            IDL_INPUTMODE,
            IDC_INPUTMODE_BASIC,
            IDC_INPUTMODE_CONTINUOUS,
            IDC_INPUTMODE_PRO,
            IDL_INPUTMODE_HOTKEY,
            IDL_ON_OFF_HOTKEY,
            IDL_DEFAULT_PUNCTUATION,
            IDL_TONE_KEYS,
            IDL_DOTTED_O_KEY,
            IDL_NASAL_KEY,
            IDL_HYPHEN_KEY,
            IDC_OPTION_AUTOKHIN,
            IDC_OPTION_DOTTED_KHIN,
            IDC_OPTION_EASY_CH,
            IDC_OPTION_UPPERCASE_NASAL,
        ],
        r.comboboxes@.len() == 7,
        r.comboboxes@[0].control == IDC_INPUTMODE_KEY_COMBO,
        r.comboboxes@[0].options@ == seq![
            IDS_INPUTMODE_KEY_CTRL_PERIOD,
            IDS_INPUTMODE_KEY_CTRL_BACKTICK,
        ],
        r.comboboxes@[1].control == IDC_ON_OFF_HOTKEY_COMBO,
        r.comboboxes@[1].options@ == seq![IDS_ON_OFF_HOTKEY_ALTBACKTICK, IDS_ON_OFF_HOTKEY_SHIFT],
        r.comboboxes@[2].control == IDC_PUNCTUATION_COMBO,
        r.comboboxes@[2].options@ == seq![IDS_PUNCT_FULL_WIDTH, IDS_PUNCT_HALF_WIDTH],
        r.comboboxes@[3].control == IDC_TONE_KEYS_COMBO,
        r.comboboxes@[3].options@ == seq![IDS_TONE_KEYS_NUMERIC, IDS_TONE_KEYS_TELEX],
        r.comboboxes@[4].control == IDC_NASAL_KEY_COMBO,
        r.comboboxes@[4].options@ == seq![IDS_NASAL_NN, IDS_NASAL_V],
        r.comboboxes@[5].control == IDC_DOTTED_O_KEY_COMBO,
        r.comboboxes@[5].options@ == seq![IDS_DOTTED_O_OU, IDS_DOTTED_O_OO],
        r.comboboxes@[6].control == IDC_HYPHEN_KEY_COMBO,
        r.comboboxes@[6].options@ == seq![IDS_HYPHEN_KEY_HYPHEN, IDS_HYPHEN_KEY_V],
        forall|i: int| 0 <= i < 7 ==> (#[trigger] r.comboboxes@[i]).selected == 0,
{
    let labels = vec![
        IDL_INPUTMODE,
        IDC_INPUTMODE_BASIC,
        IDC_INPUTMODE_CONTINUOUS,
        IDC_INPUTMODE_PRO,
        IDL_INPUTMODE_HOTKEY,
        IDL_ON_OFF_HOTKEY,
        IDL_DEFAULT_PUNCTUATION,
        IDL_TONE_KEYS,
        IDL_DOTTED_O_KEY,
        IDL_NASAL_KEY,
        IDL_HYPHEN_KEY,
        IDC_OPTION_AUTOKHIN,
        IDC_OPTION_DOTTED_KHIN,
        IDC_OPTION_EASY_CH,
        IDC_OPTION_UPPERCASE_NASAL,
    ];
    let mut comboboxes: Vec<ComboBoxInit> = Vec::new();
    comboboxes.push(
        combobox(
            IDC_INPUTMODE_KEY_COMBO,
            IDS_INPUTMODE_KEY_CTRL_PERIOD,
            IDS_INPUTMODE_KEY_CTRL_BACKTICK,
        ),
    );
    comboboxes.push(
        combobox(IDC_ON_OFF_HOTKEY_COMBO, IDS_ON_OFF_HOTKEY_ALTBACKTICK, IDS_ON_OFF_HOTKEY_SHIFT),
    );
    comboboxes.push(combobox(IDC_PUNCTUATION_COMBO, IDS_PUNCT_FULL_WIDTH, IDS_PUNCT_HALF_WIDTH));
    comboboxes.push(combobox(IDC_TONE_KEYS_COMBO, IDS_TONE_KEYS_NUMERIC, IDS_TONE_KEYS_TELEX));
    comboboxes.push(combobox(IDC_NASAL_KEY_COMBO, IDS_NASAL_NN, IDS_NASAL_V));
    comboboxes.push(combobox(IDC_DOTTED_O_KEY_COMBO, IDS_DOTTED_O_OU, IDS_DOTTED_O_OO));
    comboboxes.push(combobox(IDC_HYPHEN_KEY_COMBO, IDS_HYPHEN_KEY_HYPHEN, IDS_HYPHEN_KEY_V));
    PageInit { caption: None, labels, comboboxes }
}

/// The about page: the version and copyright labels.
pub fn about_page_init() -> (r: PageInit)
    ensures
        r.caption is None,
        r.labels@ == seq![IDL_KHIIN_VERSION, IDL_KHIIN_COPYRIGHT],
        r.comboboxes@.len() == 0,
{
    PageInit {
        caption: None,
        labels: vec![IDL_KHIIN_VERSION, IDL_KHIIN_COPYRIGHT],
        comboboxes: Vec::new(),
    }
}

/// The user dictionary page: its labels and buttons.
pub fn userdict_page_init() -> (r: PageInit)
    ensures
        r.caption is None,
        r.labels@ == seq![
            IDL_EDIT_USERDICT,
            IDC_EDIT_USEDICT_BTN,
            IDL_RESET_USERDATA,
            IDC_RESET_USERDATA_BTN,
        ],
        r.comboboxes@.len() == 0,
{
    PageInit {
        caption: None,
        labels: vec![
            IDL_EDIT_USERDICT,
            IDC_EDIT_USEDICT_BTN,
            IDL_RESET_USERDATA,
            IDC_RESET_USERDATA_BTN,
        ],
        comboboxes: Vec::new(),
    }
}

/// Whether a page message asks the page to fill itself in; every other
/// message is answered with 0.
pub fn page_initializes_on(message: u32) -> (r: bool)
    ensures
        r == (message == WM_INITDIALOG),
{
    message == WM_INITDIALOG
}

/// The texts of the resources `rids` in `locale`, in order, as the page sets
/// them on its controls.
pub fn texts_of(locale: &Locale, rids: &Vec<u16>) -> (r: Vec<String>)
    ensures
        r@.len() == rids@.len(),
        forall|i: int| 0 <= i < rids@.len() ==> #[trigger] r@[i]@ == spec_translate(*locale, rids@[i]),
{
    let mut out: Vec<String> = Vec::new();
    let mut i: usize = 0;
    while i < rids.len()
        invariant
            i <= rids@.len(),
            out@.len() == i,
            forall|j: int| 0 <= j < i ==> #[trigger] out@[j]@ == spec_translate(*locale, rids@[j]),
        decreases rids@.len() - i,
    {
        out.push(t(locale, rids[i]));
        i = i + 1;
    }
    out
}

} // verus!
