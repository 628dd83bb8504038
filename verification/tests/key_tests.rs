use khiin_windows::key_event::is_handled_key;
use khiin_windows::key_event::is_preserved_key;
use khiin_windows::key_event::scancode;
use khiin_windows::key_event::state_without_ctrl;
use khiin_windows::key_event::windows_to_khiin_special_key_code;
use khiin_windows::key_event::KeyEvent;
use khiin_windows::key_event::SpecialKey;
use khiin_windows::key_event::VK_BACK;
use khiin_windows::key_event::VK_CONTROL;
use khiin_windows::key_event::VK_DOWN;
use khiin_windows::key_event::VK_H;
use khiin_windows::key_event::VK_L;
use khiin_windows::key_event::VK_OEM_3;
use khiin_windows::key_event::VK_RETURN;
use khiin_windows::key_event::VK_SHIFT;
use khiin_windows::key_event::VK_SPACE;
use khiin_windows::key_event::VK_TAB;
use khiin_windows::key_event::WM_KEYDOWN;
use khiin_windows::key_event::WM_KEYUP;
use khiin_windows::key_event_sink::ends_with_joiner;
use khiin_windows::key_event_sink::KeyDownAction;
use khiin_windows::key_event_sink::KeyEventSink;
use khiin_windows::key_event_sink::KeyUpAction;
use khiin_windows::key_event_sink::ServiceStatus;

fn key(vk: u16, ascii: u8) -> KeyEvent {
    let count = if ascii > 0 { 1 } else { 0 };
    KeyEvent::from_keyboard(WM_KEYDOWN, vk as usize, [0u8; 256], [ascii as u16, 0], count)
}

fn status(enabled: bool, composing: bool, manual: bool, text: &str) -> ServiceStatus {
    ServiceStatus {
        enabled,
        composing,
        manual_mode: manual,
        display_text: text.to_string(),
        hyphen_or_khin_key: false,
        illegal: false,
    }
}

#[test]
fn key_event_from_keyboard() {
    let mut state = [0u8; 256];
    state[VK_SHIFT as usize] = 0x80;
    let e = KeyEvent::from_keyboard(WM_KEYUP, 0x41, state, [0x61, 0], 1);
    assert_eq!(e.message, WM_KEYUP);
    assert_eq!(e.keycode, 0x41);
    assert_eq!(e.ascii, 0x61);
    assert!(e.key_down(VK_SHIFT as u32));
    assert!(!e.key_down(VK_CONTROL as u32));
    assert!(!e.key_down(300));
    let none = KeyEvent::from_keyboard(WM_KEYDOWN, 0x41, state, [0x61, 0], 0);
    assert_eq!(none.ascii, 0);
    let two = KeyEvent::from_keyboard(WM_KEYDOWN, 0x41, state, [0x61, 0x62], 2);
    assert_eq!(two.ascii, 0);
}

#[test]
fn key_down_needs_high_bit() {
    let mut state = [0u8; 256];
    state[0x41] = 0x01;
    state[0x42] = 0x81;
    let e = KeyEvent::from_keyboard(WM_KEYDOWN, 0x41, state, [0, 0], 0);
    assert!(!e.key_down(0x41));
    assert!(e.key_down(0x42));
}

#[test]
fn scancode_and_ctrl_state() {
    assert_eq!(scancode(0x001E_0001), 0x1E);
    assert_eq!(scancode(0x011C_0001), 0x1C);
    let mut state = [0u8; 256];
    state[VK_CONTROL as usize] = 0x80;
    state[0x41] = 0x80;
    let s = state_without_ctrl(&state);
    assert_eq!(s[VK_CONTROL as usize], 0);
    assert_eq!(s[0x41], 0x80);
}

#[test]
fn special_keys_and_engine_event() {
    assert_eq!(windows_to_khiin_special_key_code(&key(VK_BACK, 0)), SpecialKey::Backspace);
    assert_eq!(windows_to_khiin_special_key_code(&key(VK_DOWN, 0)), SpecialKey::Down);
    assert_eq!(windows_to_khiin_special_key_code(&key(0x41, b'a')), SpecialKey::NoKey);
    let k = key(0x41, b'a').to_khiin();
    assert_eq!(k.key_code, 0x61);
    assert_eq!(k.special_key, SpecialKey::NoKey);
    assert_eq!(key(VK_BACK, 0).to_khiin().key_code, 0);
    assert_eq!(key(0x41, 0).as_virtual_key(), 0x41);
}

#[test]
fn handled_and_preserved_keys() {
    assert!(is_handled_key(&key(0x41, b'a')));
    assert!(is_handled_key(&key(VK_OEM_3, 0)));
    assert!(is_handled_key(&key(VK_BACK, 0)));
    assert!(!is_handled_key(&key(0x41, 0)));
    assert!(is_preserved_key(&key(VK_SPACE, b' ')));
    assert!(is_preserved_key(&key(VK_RETURN, 0)));
    assert!(!is_preserved_key(&key(VK_BACK, 0)));
    assert!(!is_preserved_key(&key(VK_OEM_3, 0)));
}

#[test]
fn punctuation() {
    assert!(key(0xBE, b'.').is_punctuation());
    assert!(key(0xBC, b',').is_punctuation());
    assert!(key(0x31, b'!').is_punctuation());
    assert!(!key(0x41, b'a').is_punctuation());
    assert!(!key(VK_SPACE, b' ').is_punctuation());
    for b in 0u8..128 {
        assert_eq!(key(0x41, b).is_punctuation(), b.is_ascii_punctuation());
    }
}

#[test]
fn shift_tap_toggles_input_mode() {
    let mut sink = KeyEventSink::new();
    let st = status(true, false, false, "");
    assert!(sink.test_key_down(&key(VK_SHIFT, 0), &st));
    let mut sink = KeyEventSink::new();
    assert_eq!(sink.key_down(&key(VK_SHIFT, 0), &st), KeyDownAction::Consume);
    assert!(sink.shift_pressed);
    assert!(sink.test_key_up(&key(VK_SHIFT, 0)));
    assert_eq!(sink.key_up(&key(VK_SHIFT, 0), true), KeyUpAction::ToggleInputMode);
    assert!(!sink.shift_pressed);
}

#[test]
fn shift_release_while_disabled_is_ignored() {
    let mut sink = KeyEventSink { shift_pressed: true, ctrl_pressed: false };
    assert_eq!(sink.key_up(&key(VK_SHIFT, 0), false), KeyUpAction::Ignore);
    assert!(!sink.shift_pressed);
}

#[test]
fn ctrl_h_and_ctrl_l_change_output_mode() {
    let st = status(true, true, false, "");
    let mut sink = KeyEventSink::new();
    assert_eq!(
        sink.key_down(&key(VK_CONTROL, 0), &st),
        KeyDownAction::Forward { commit_first: false, send_key: true }
    );
    assert_eq!(sink.key_down(&key(VK_H, 0), &st), KeyDownAction::ChangeOutputMode(true));
    assert!(!sink.ctrl_pressed);
    sink.key_down(&key(VK_CONTROL, 0), &st);
    assert_eq!(sink.key_down(&key(VK_L, 0), &st), KeyDownAction::ChangeOutputMode(false));
    assert_eq!(sink, KeyEventSink::new());
}

#[test]
fn ctrl_with_other_key_is_dropped() {
    let st = status(true, true, false, "");
    let mut sink = KeyEventSink { shift_pressed: false, ctrl_pressed: true };
    assert_eq!(
        sink.key_down(&key(0x41, 0x01), &st),
        KeyDownAction::Forward { commit_first: false, send_key: false }
    );
    assert!(!sink.ctrl_pressed);
}

#[test]
fn ctrl_release() {
    let mut sink = KeyEventSink { shift_pressed: false, ctrl_pressed: true };
    assert!(sink.test_key_up(&key(VK_CONTROL, 0)));
    assert!(!sink.ctrl_pressed);
    let mut sink = KeyEventSink { shift_pressed: false, ctrl_pressed: true };
    assert_eq!(sink.key_up(&key(VK_CONTROL, 0), true), KeyUpAction::Consume);
    assert_eq!(sink.key_up(&key(0x41, 0), true), KeyUpAction::Ignore);
}

#[test]
fn disabled_ignores_everything() {
    let st = status(false, true, true, "a-");
    let mut sink = KeyEventSink { shift_pressed: true, ctrl_pressed: true };
    assert_eq!(sink.key_down(&key(VK_SPACE, b' '), &st), KeyDownAction::Ignore);
    assert!(!sink.test_key_down(&key(0x41, b'a'), &st));
    assert_eq!(sink, KeyEventSink { shift_pressed: true, ctrl_pressed: true });
}

#[test]
fn special_keys_pass_when_not_composing() {
    let st = status(true, false, false, "");
    let mut sink = KeyEventSink::new();
    assert!(!sink.test_key_down(&key(VK_BACK, 0), &st));
    assert_eq!(
        sink.key_down(&key(VK_DOWN, 0), &st),
        KeyDownAction::Forward { commit_first: false, send_key: false }
    );
    let composing = status(true, true, false, "");
    assert!(sink.test_key_down(&key(VK_BACK, 0), &composing));
}

#[test]
fn manual_mode_commits_on_preserved_keys() {
    let st = status(true, true, true, "tai");
    let mut sink = KeyEventSink::new();
    assert_eq!(sink.key_down(&key(VK_SPACE, b' '), &st), KeyDownAction::CommitAndReset(Some(b' ')));
    assert_eq!(sink.key_down(&key(VK_TAB, 0x09), &st), KeyDownAction::CommitAndReset(Some(b'\t')));
    assert_eq!(sink.key_down(&key(VK_RETURN, 0x0D), &st), KeyDownAction::CommitAndReset(Some(b'\n')));
    assert_eq!(sink.key_down(&key(VK_DOWN, 0), &st), KeyDownAction::CommitAndReset(None));
    assert_eq!(sink.key_down(&key(0xBE, b'.'), &st), KeyDownAction::CommitAndReset(Some(b'.')));
    let wide_space = KeyEvent::from_keyboard(WM_KEYDOWN, 0x10020, [0u8; 256], [0, 0], 0);
    assert_eq!(sink.key_down(&wide_space, &st), KeyDownAction::CommitAndReset(None));
}

#[test]
fn manual_mode_commits_after_joiner() {
    let st = status(true, true, true, "tai-");
    let mut sink = KeyEventSink::new();
    assert_eq!(
        sink.key_down(&key(0x47, b'g'), &st),
        KeyDownAction::Forward { commit_first: true, send_key: true }
    );
    let mut khin = status(true, true, true, "tai\u{b7}");
    khin.hyphen_or_khin_key = true;
    assert_eq!(
        sink.key_down(&key(0x47, b'g'), &khin),
        KeyDownAction::Forward { commit_first: false, send_key: true }
    );
    let plain = status(true, true, true, "tai");
    assert_eq!(
        sink.key_down(&key(0x47, b'g'), &plain),
        KeyDownAction::Forward { commit_first: false, send_key: true }
    );
}

#[test]
fn joiner_suffix() {
    assert!(ends_with_joiner("tai-"));
    assert!(ends_with_joiner("khin\u{b7}"));
    assert!(!ends_with_joiner(""));
    assert!(!ends_with_joiner("-a"));
}
