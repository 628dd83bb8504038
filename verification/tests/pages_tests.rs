use khiin_windows::preserved_keys::preserved_key;
use khiin_windows::preserved_keys::PreservedKeyId;
use khiin_windows::preserved_keys::MOD_ALT;
use khiin_windows::preserved_keys::MOD_CONTROL;
use khiin_windows::preserved_keys::MOD_SHIFT;
use khiin_windows::settings_app_locales::Locale;
use khiin_windows::settings_pages::about_page_init;
use khiin_windows::settings_pages::input_page_init;
use khiin_windows::settings_pages::page_initializes_on;
use khiin_windows::settings_pages::style_page_init;
use khiin_windows::settings_pages::texts_of;
use khiin_windows::settings_pages::userdict_page_init;
use khiin_windows::settings_resource::IDC_COMBOBOX_THEME_COLOR;
use khiin_windows::settings_resource::IDC_HYPHEN_KEY_COMBO;
use khiin_windows::settings_resource::IDL_COLOR;
use khiin_windows::settings_resource::IDL_KHIIN_COPYRIGHT;
use khiin_windows::settings_resource::IDL_KHIIN_VERSION;
use khiin_windows::settings_resource::IDS_DARK_THEME;
use khiin_windows::settings_resource::IDS_HYPHEN_KEY_HYPHEN;
use khiin_windows::settings_resource::IDS_HYPHEN_KEY_V;
use khiin_windows::settings_resource::IDS_LIGHT_THEME;
use khiin_windows::settings_resource::IDS_WINDOW_CAPTION;
use khiin_windows::wpreedit::Preedit;
use khiin_windows::wpreedit::Segment;
use khiin_windows::wpreedit::SegmentStatus;
use khiin_windows::win::wide_prefix_to_string;

#[test]
fn style_page_fills_caption_labels_and_lists() {
    let p = style_page_init();
    assert_eq!(p.caption, Some(IDS_WINDOW_CAPTION));
    assert_eq!(p.labels.len(), 6);
    assert_eq!(p.labels[0], IDL_COLOR);
    assert_eq!(p.comboboxes.len(), 2);
    assert_eq!(p.comboboxes[0].control, IDC_COMBOBOX_THEME_COLOR);
    assert_eq!(p.comboboxes[0].options, vec![IDS_LIGHT_THEME, IDS_DARK_THEME]);
    assert_eq!(p.comboboxes[0].selected, 0);
}

#[test]
fn input_page_has_seven_lists() {
    let p = input_page_init();
    assert_eq!(p.caption, None);
    assert_eq!(p.labels.len(), 15);
    assert_eq!(p.comboboxes.len(), 7);
    assert_eq!(p.comboboxes[6].control, IDC_HYPHEN_KEY_COMBO);
    assert_eq!(p.comboboxes[6].options, vec![IDS_HYPHEN_KEY_HYPHEN, IDS_HYPHEN_KEY_V]);
    assert!(p.comboboxes.iter().all(|c| c.selected == 0 && c.options.len() == 2));
}

#[test]
fn about_and_userdict_pages_have_only_labels() {
    let p = about_page_init();
    assert_eq!(p.labels, vec![IDL_KHIIN_VERSION, IDL_KHIIN_COPYRIGHT]);
    assert!(p.comboboxes.is_empty());
    let p = userdict_page_init();
    assert_eq!(p.labels.len(), 4);
    assert!(p.comboboxes.is_empty());
}

#[test]
fn pages_initialize_on_init_dialog_only() {
    assert!(page_initializes_on(0x0110));
    assert!(!page_initializes_on(0x0111));
}

#[test]
fn page_texts_follow_the_locale() {
    let rids = vec![IDS_LIGHT_THEME, IDS_DARK_THEME];
    let en = texts_of(&Locale::EN, &rids);
    assert_eq!(en.len(), 2);
    let oan = texts_of(&Locale::OAN, &rids);
    assert_eq!(oan.len(), 2);
    assert_ne!(en, oan);
    let missing = texts_of(&Locale::EN, &vec![65000]);
    assert_eq!(missing, vec!["65000".to_string()]);
}

#[test]
fn preserved_keys_are_fixed() {
    let k = preserved_key(PreservedKeyId::OnOff);
    assert_eq!((k.vkey, k.modifiers, k.desc), (0xC0, MOD_ALT, "Direct input"));
    let k = preserved_key(PreservedKeyId::SwitchMode);
    assert_eq!((k.vkey, k.modifiers, k.desc), (0xC0, MOD_CONTROL, "Switch mode"));
    let k = preserved_key(PreservedKeyId::FullWidthSpace);
    assert_eq!((k.vkey, k.modifiers, k.desc), (0x20, MOD_SHIFT, "Direct input"));
}

#[test]
fn wide_prefix_decodes_the_filled_part() {
    let mut buffer = [0u16; 39];
    let text: Vec<u16> = "{ABC}".encode_utf16().collect();
    buffer[..text.len()].copy_from_slice(&text);
    assert_eq!(wide_prefix_to_string(&buffer, 5), Some("{ABC}".to_string()));
    assert_eq!(wide_prefix_to_string(&buffer, 2), Some("{A".to_string()));
    assert_eq!(wide_prefix_to_string(&buffer, 0), None);
    let lone_surrogate = [0xD800u16, 0x41];
    assert_eq!(wide_prefix_to_string(&lone_surrogate, 2), None);
    let pair = [0xD83Du16, 0xDE00];
    assert_eq!(wide_prefix_to_string(&pair, 2), Some("\u{1F600}".to_string()));
}

#[test]
fn widen_matches_new() {
    let p = Preedit {
        segments: vec![
            Segment { value: "tai".to_string(), status: SegmentStatus::Composing },
            Segment { value: "語".to_string(), status: SegmentStatus::Focused },
        ],
        caret: 4,
        focused_caret: 3,
    };
    let w = p.widen();
    assert_eq!(w.caret, 4);
    assert_eq!(w.display, "tai語".encode_utf16().collect::<Vec<u16>>());
    assert_eq!(w.segments.len(), 2);
    assert_eq!((w.segments[0].start, w.segments[0].stop), (0, 3));
    assert_eq!((w.segments[1].start, w.segments[1].stop), (1, 2));
}

#[test]
fn compartment_values_round_trip() {
    let v = khiin_windows::compartment::variant_of_value(0xFFFF_FFFF);
    assert_eq!(v.vt, khiin_windows::compartment::VT_I4);
    assert_eq!(v.lval, -1);
    assert_eq!(khiin_windows::compartment::value_of_variant(v), Ok(0xFFFF_FFFF));
    let other = khiin_windows::compartment::VariantI4 { vt: 8, lval: 1 };
    assert_eq!(
        khiin_windows::compartment::value_of_variant(other),
        Err(khiin_windows::compartment::CompartmentError::InvalidParameter)
    );
    assert_eq!(khiin_windows::compartment::value_of_bool(true), 1);
    assert_eq!(khiin_windows::compartment::value_of_bool(false), 0);
    assert!(khiin_windows::compartment::bool_of_value(2));
    assert!(!khiin_windows::compartment::bool_of_value(0));
}

#[test]
fn context_cache_returns_the_context_of_each_reply() {
    let mut cache = khiin_windows::text_service::ContextCache::new();
    cache.remember(1, "first");
    cache.remember(2, "second");
    assert_eq!(cache.take(2), Some("second"));
    assert_eq!(cache.take(2), None);
    assert_eq!(cache.take(3), None);
    cache.remember(1, "again");
    assert_eq!(cache.take(1), Some("again"));
    assert_eq!(cache.take(1), None);
}

#[test]
fn string_setting_round_trip() {
    use_string_round_trip("Tester 123");
    use_string_round_trip("台語 𝄞");
    use_string_round_trip("");
}

fn use_string_round_trip(value: &str) {
    let bytes = khiin_windows::win::WinString::to_wide_bytes_nul(&value);
    let units: Vec<u16> = bytes.chunks(2).map(|p| p[0] as u16 | ((p[1] as u16) << 8)).collect();
    let kept = khiin_windows::settings::string_value_units(units, bytes.len() as u32);
    let back = khiin_windows::win::wide_prefix_to_string(&kept, kept.len() as u32);
    if value.is_empty() {
        assert!(kept.is_empty());
        assert_eq!(back, None);
    } else {
        assert_eq!(back, Some(value.to_string()));
    }
}

#[test]
fn u32_setting_round_trip() {
    let value: u32 = 800092000;
    let bytes = khiin_windows::settings::u32_le_bytes(value);
    assert_eq!(u32::from_le_bytes(bytes), value);
}

#[test]
fn candidate_strings_by_index() {
    let tracker = khiin_windows::candidate_list_ui::CandidateListTracker {
        prev_candidates: vec![],
        candidates: vec![
            khiin_windows::pager::Candidate::new(1, "語".to_string()),
            khiin_windows::pager::Candidate::new(2, "gí".to_string()),
        ],
    };
    assert_eq!(tracker.get_string(1), Some("gí".to_string()));
    assert_eq!(tracker.get_string(2), None);
}

#[test]
fn tray_menu_items_start_blank() {
    let items = khiin_windows::systray::get_menu_items();
    assert_eq!(items[4].string_key, "");
    assert!(items.iter().all(|i| i.rect.width == 0 && i.rect.height == 0 && i.rect.origin.x == 0 && i.rect.origin.y == 0));
}

#[test]
fn tray_menu_text_extent_skips_separators() {
    let items = khiin_windows::systray::get_menu_items();
    let extents = vec![(40, 12), (55, 10), (30, 18), (20, 9), (900, 900), (50, 11)];
    assert_eq!(khiin_windows::systray::max_item_extent(&items, &extents), (55, 18));
}

#[test]
fn service_flags_start_off_and_follow_replies() {
    let mut f = khiin_windows::text_service::ServiceFlags::new();
    assert!(!f.state.enabled && !f.state.locked && !f.editing);
    let a = f.on_reply(khiin_windows::pager::EditState::Composing, khiin_windows::text_service::AppInputMode::Classic);
    assert_eq!(a, khiin_windows::text_service::CandidateAction::Show);
    assert!(f.editing);
    let a = f.on_reply(khiin_windows::pager::EditState::Empty, khiin_windows::text_service::AppInputMode::Classic);
    assert_eq!(a, khiin_windows::text_service::CandidateAction::Clear);
    assert!(!f.editing);
    let e = khiin_windows::text_service::EnabledState::new();
    assert!(!e.enabled && !e.locked);
}

#[test]
fn text_position_falls_back() {
    use_text_position();
}

fn use_text_position() {
    let r = |l, t, rr, b| khiin_windows::geometry::WinRect { left: l, top: t, right: rr, bottom: b };
    let zero = r(0, 0, 0, 0);
    let win = r(100, 200, 500, 600);
    let pos = khiin_windows::geometry::text_position_from;
    assert_eq!(pos(Some(r(1, 2, 3, 4)), Some(r(5, 6, 7, 8)), true, &win), r(1, 2, 3, 4));
    assert_eq!(pos(Some(zero), Some(r(5, 6, 7, 8)), true, &win), r(5, 6, 7, 8));
    assert_eq!(pos(None, Some(r(5, 6, 7, 8)), true, &win), r(5, 6, 7, 8));
    assert_eq!(pos(None, Some(zero), true, &win), r(100, 200, 101, 201));
    assert_eq!(pos(Some(zero), None, false, &win), win);
}

#[test]
fn debug_attach_only_once() {
    assert!(khiin_windows::settings::debug_attach_ok(2, 0));
    assert!(!khiin_windows::settings::debug_attach_ok(2, 5));
    assert!(!khiin_windows::settings::debug_attach_ok(0, 0));
}
