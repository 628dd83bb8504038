use khiin_windows::class_factory::CreateInstanceError;
use khiin_windows::class_factory::KhiinClassFactory;
use khiin_windows::lang_bar::badge_pixel;
use khiin_windows::lang_bar::click_action;
use khiin_windows::lang_bar::icon_size;
use khiin_windows::lang_bar::label_font_height;
use khiin_windows::lang_bar::mode_icon_label;
use khiin_windows::lang_bar::recolor_badge;
use khiin_windows::lang_bar::LangBarClick;
use khiin_windows::lang_bar::SinkMap;
use khiin_windows::lang_bar::TF_LBI_CLK_LEFT;
use khiin_windows::lang_bar::TF_LBI_CLK_RIGHT;
use khiin_windows::pager::EditState;
use khiin_windows::settings::should_create_debug_lock;
use khiin_windows::settings::string_value_units;
use khiin_windows::settings::system_theme_from_value;
use khiin_windows::settings::u32_le_bytes;
use khiin_windows::settings::SettingsKey;
use khiin_windows::settings::SystemTheme;
use khiin_windows::settings::ERROR_FILE_NOT_FOUND;
use khiin_windows::systray::get_menu_items;
use khiin_windows::systray::layout_menu_items;
use khiin_windows::systray::menu_hit_test;
use khiin_windows::systray::popup_position;
use khiin_windows::geometry::Point;
use khiin_windows::text_service::command_followup;
use khiin_windows::text_service::window_dpi;
use khiin_windows::text_service::AppInputMode;
use khiin_windows::text_service::CandidateAction;
use khiin_windows::text_service::EnabledState;

#[test]
fn settings_value_names() {
    assert_eq!(SettingsKey::SettingsApp.reg_key(), "settings_exe");
    assert_eq!(SettingsKey::DatabaseFile.reg_key(), "installed_db");
    assert_eq!(SettingsKey::UserDictionaryFile.reg_key(), "user_dictionary_file");
    assert_eq!(SettingsKey::DebugLock.reg_key(), "DebugLock");
}

#[test]
fn settings_values() {
    assert_eq!(system_theme_from_value(1), SystemTheme::Light);
    assert_eq!(system_theme_from_value(0), SystemTheme::Dark);
    assert_eq!(system_theme_from_value(7), SystemTheme::Dark);
    let data: Vec<u16> = "Tester 123\0".encode_utf16().collect();
    let units = string_value_units(data, 22);
    assert_eq!(String::from_utf16(&units).unwrap(), "Tester 123");
    assert_eq!(string_value_units(vec![0x41, 0], 2), Vec::<u16>::new());
    assert_eq!(u32_le_bytes(800092000), 800092000u32.to_le_bytes());
    assert_eq!(u32_le_bytes(0x0102_0304), [4, 3, 2, 1]);
    assert!(should_create_debug_lock(ERROR_FILE_NOT_FOUND));
    assert!(!should_create_debug_lock(0));
}

#[test]
fn class_factory_checks() {
    let f = KhiinClassFactory::new();
    assert_eq!(f.create_instance_check(true, true), Err(CreateInstanceError::NoAggregation));
    assert_eq!(f.create_instance_check(false, false), Err(CreateInstanceError::NoInterface));
    assert_eq!(f.create_instance_check(false, true), Ok(()));
}

#[test]
fn service_decisions() {
    let r = command_followup(EditState::Empty, AppInputMode::Classic);
    assert!(!r.editing);
    assert_eq!(r.candidates, CandidateAction::Clear);
    let r = command_followup(EditState::Composing, AppInputMode::Classic);
    assert!(r.editing);
    assert_eq!(r.candidates, CandidateAction::Show);
    assert_eq!(command_followup(EditState::Selecting, AppInputMode::Manual).candidates, CandidateAction::Nothing);

    let mut s = EnabledState { locked: false, enabled: false };
    s.set_enabled(true);
    assert!(s.enabled);
    let mut s = EnabledState { locked: true, enabled: false };
    s.set_enabled(true);
    assert!(!s.enabled);

    assert_eq!(window_dpi(false, 144, 120), 96);
    assert_eq!(window_dpi(true, 144, 120), 144);
    assert_eq!(window_dpi(true, 0, 120), 120);
}

#[test]
fn sink_cookies() {
    let mut m: SinkMap<&str> = SinkMap::new();
    assert_eq!(m.advise_sink("a"), 1);
    assert_eq!(m.advise_sink("b"), 2);
    assert!(m.unadvise_sink(1));
    assert!(!m.unadvise_sink(1));
    assert_eq!(m.len(), 1);
    assert_eq!(m.advise_sink("c"), 3);
    assert!(m.unadvise_sink(3));
    assert_eq!(m.advise_sink("d"), 3);
    assert_eq!(m.get(2), Some(&"b"));
    assert_eq!(m.get(3), Some(&"d"));
    assert_eq!(m.get(1), None);
    let mut cookies = m.cookies();
    cookies.sort();
    assert_eq!(cookies, vec![2, 3]);
}

#[test]
fn sink_advise_refusals() {
    let mut m: SinkMap<&str> = SinkMap::new();
    assert_eq!(m.advise(false, Some("a")), Err(khiin_windows::lang_bar::AdviseError::CannotConnect));
    assert_eq!(m.advise(true, None), Err(khiin_windows::lang_bar::AdviseError::InvalidArg));
    assert_eq!(m.len(), 0);
    assert_eq!(m.advise(true, Some("a")), Ok(1));
    assert_eq!(m.advise(false, None), Err(khiin_windows::lang_bar::AdviseError::CannotConnect));
    assert_eq!(m.len(), 1);
}

#[test]
fn language_bar_icon() {
    assert_eq!(click_action(TF_LBI_CLK_LEFT), LangBarClick::ToggleEnabled);
    assert_eq!(click_action(TF_LBI_CLK_RIGHT), LangBarClick::OpenSettings);
    assert_eq!(click_action(0), LangBarClick::Nothing);
    assert_eq!(mode_icon_label(true), "由");
    assert_eq!(mode_icon_label(false), "動");
    assert_eq!(badge_pixel(0), 0xFFF5F5F5);
    assert_eq!(badge_pixel(0x00FFFFFF), 0xFF202020);
    assert_eq!(badge_pixel(0x00800000), 0xFF8A8A8A);
    let mut px = vec![0u32, 0x00FFFFFF];
    recolor_badge(&mut px);
    assert_eq!(px, vec![0xFFF5F5F5, 0xFF202020]);
    assert_eq!(icon_size(0), 16);
    assert_eq!(icon_size(-4), 16);
    assert_eq!(icon_size(20), 20);
    assert_eq!(label_font_height(16), -12);
}

#[test]
fn tray_menu() {
    let mut items = get_menu_items();
    assert_eq!(items.len(), 6);
    assert!(items[0].checked);
    assert!(items[4].separator);
    assert_eq!(items[5].string_key, "settings");
    let (w, h) = layout_menu_items(&mut items, 100, 20);
    assert_eq!(w, 100 + 24 + 32 + 32);
    assert_eq!(items[0].rect.origin.y, 8);
    assert_eq!(items[0].rect.height, 34);
    assert_eq!(items[4].rect.origin.y, 8 + 4 * 34);
    assert_eq!(items[4].rect.height, 8);
    assert_eq!(items[5].rect.origin.y, 8 + 4 * 34 + 8);
    assert_eq!(h, 8 + 5 * 34 + 8 + 8);
    let (_, h2) = layout_menu_items(&mut items, 100, 40);
    assert_eq!(h2, 8 + 5 * 48 + 8 + 8);
    assert_eq!(popup_position(500, 1000, 200, 300, 1920), (400, 700));
    assert_eq!(popup_position(1900, 1000, 200, 300, 1920), (1720, 700));
    let (_, _) = layout_menu_items(&mut items, 100, 20);
    assert_eq!(menu_hit_test(&items, usize::MAX, Point { x: 5, y: 10 }), (0, true));
    assert_eq!(menu_hit_test(&items, 0, Point { x: 5, y: 10 }), (usize::MAX, false));
    assert_eq!(menu_hit_test(&items, 0, Point { x: 5, y: 50 }), (1, true));
    assert_eq!(menu_hit_test(&items, 0, Point { x: 5, y: 2 }), (usize::MAX, false));
}
