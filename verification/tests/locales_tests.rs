use khiin_windows::locales;
use khiin_windows::settings_app_locales;
use khiin_windows::settings_locales;
use khiin_windows::settings_resource::IDD_APPEARANCETAB;
use khiin_windows::settings_resource::IDL_KHIIN_VERSION;
use khiin_windows::settings_resource::IDS_DARK_THEME;
use khiin_windows::settings_resource::IDS_WINDOW_CAPTION;

#[test]
fn ime_translations() {
    assert_eq!(locales::translate("en", "continuous"), "Continuous Mode");
    assert_eq!(locales::translate("en", "manual"), "Continuous Mode");
    assert_eq!(locales::translate("en", "settings"), "Khíín Settings");
    assert_eq!(locales::translate("oan-hanl", "basic"), "隋个隋个打");
    assert_eq!(locales::translate("oan-hanl", "direct"), "干焦打 ABC");
}

#[test]
fn ime_missing_translation_gives_key() {
    assert_eq!(locales::translate("en", "nothing"), "en.nothing");
    assert_eq!(locales::translate("fr", "basic"), "fr.basic");
    assert_eq!(locales::translate("", ""), ".");
}

#[test]
fn ime_current_locale() {
    let mut current = locales::default_locale();
    assert_eq!(current, "en");
    assert_eq!(locales::t(&current, "basic"), "Basic Mode");
    locales::set_locale(&mut current, "oan-hanl");
    assert_eq!(locales::t(&current, "settings"), "起引打字法設置");
}

#[test]
fn settings_translations() {
    type Locale = settings_locales::Locale;
    assert_eq!(settings_locales::translate(Locale::EN, IDS_WINDOW_CAPTION), "Khíín Taiwanese IME Settings");
    assert_eq!(settings_locales::translate(Locale::OAN, IDS_DARK_THEME), "烏底");
    assert_eq!(settings_locales::translate(Locale::EN, IDL_KHIIN_VERSION), IDL_KHIIN_VERSION.to_string());
    assert_eq!(settings_locales::translate(Locale::OAN, 7), "7");
    assert_eq!(settings_locales::translate(Locale::EN, 65535), "65535");
    assert_eq!(settings_locales::translate(Locale::EN, 0), "0");
    let mut current = settings_locales::default_locale();
    assert_eq!(settings_locales::t(&current, IDD_APPEARANCETAB), "Display");
    settings_locales::set_locale(&mut current, Locale::OAN);
    assert_eq!(settings_locales::t(&current, IDD_APPEARANCETAB), "外皮");
}

#[test]
fn settings_app_translations() {
    type Locale = settings_app_locales::Locale;
    assert_eq!(settings_app_locales::translate(Locale::EN, IDL_KHIIN_VERSION), "Khíín PJH v0.1.0");
    assert_eq!(settings_app_locales::translate(Locale::OAN, IDL_KHIIN_VERSION), "起引打字法 v0.1.0");
    assert_eq!(settings_app_locales::translate(Locale::OAN, 12345), "12345");
    let mut current = settings_app_locales::default_locale();
    settings_app_locales::set_locale(&mut current, Locale::OAN);
    assert_eq!(settings_app_locales::t(&current, IDS_DARK_THEME), "烏底");
}

#[test]
fn decimal_numbers_match_std() {
    for n in [0u16, 9, 10, 99, 100, 1001, 40000, u16::MAX] {
        assert_eq!(khiin_windows::text::decimal_string(n), n.to_string());
    }
    assert!(khiin_windows::text::eq_str("連續", "連續"));
    assert!(!khiin_windows::text::eq_str("a", "ab"));
}
