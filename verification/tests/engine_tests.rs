use khiin_windows::engine::client_socket_name;
use khiin_windows::engine::handle_key;
use khiin_windows::engine::key_request;
use khiin_windows::engine::message_handler_handles;
use khiin_windows::engine::reset_request;
use khiin_windows::engine::send_reset_command;
use khiin_windows::engine::service_socket_name;
use khiin_windows::engine::window_event;
use khiin_windows::engine::CommandType;
use khiin_windows::engine::ConnectRetry;
use khiin_windows::engine::ConnectStep;
use khiin_windows::engine::WindowEvent;
use khiin_windows::engine::MAX_CONNECT_ATTEMPTS;
use khiin_windows::engine::WM_KHIIN_COMMAND;
use khiin_windows::geometry::Point;
use khiin_windows::key_event::KeyEvent;
use khiin_windows::key_event::KhiinKeyEvent;
use khiin_windows::key_event::SpecialKey;
use khiin_windows::key_event::VK_BACK;
use khiin_windows::key_event::WM_KEYDOWN;
use khiin_windows::sink::SinkRegistration;
use khiin_windows::sink::UnadvisePlan;
use khiin_windows::sink::TF_INVALID_COOKIE;

fn letter_event(ch: u8) -> KeyEvent {
    KeyEvent::from_keyboard(WM_KEYDOWN, ch.to_ascii_uppercase() as usize, [0u8; 256], [ch as u16, 0], 1)
}

#[test]
fn key_request_carries_the_key() {
    let r = key_request(7, &letter_event(b'a'));
    assert_eq!(r.id, 7);
    assert_eq!(r.kind, CommandType::SendKey);
    assert_eq!(r.key_event, Some(KhiinKeyEvent { key_code: 97, special_key: SpecialKey::NoKey }));
}

#[test]
fn handle_key_builds_send_key_request() {
    let e = KeyEvent::from_keyboard(WM_KEYDOWN, VK_BACK as usize, [0u8; 256], [8, 0], 1);
    let r = handle_key(&e);
    assert_eq!(r.kind, CommandType::SendKey);
    assert_eq!(r.key_event, Some(KhiinKeyEvent { key_code: 8, special_key: SpecialKey::Backspace }));
}

#[test]
fn reset_requests_carry_no_key() {
    let r = reset_request(42);
    assert_eq!(r.id, 42);
    assert_eq!(r.kind, CommandType::Reset);
    assert_eq!(r.key_event, None);
    let r = send_reset_command();
    assert_eq!(r.kind, CommandType::Reset);
    assert_eq!(r.key_event, None);
}

#[test]
fn socket_names() {
    assert_eq!(client_socket_name(true), "/tmp/khiin.sock");
    assert_eq!(client_socket_name(false), "@khiin.sock");
    assert_eq!(service_socket_name(false, None), "@khiin.sock");
    assert_eq!(service_socket_name(true, Some("test")), "/tmp/khiin.sock.test");
    assert_eq!(service_socket_name(false, Some("2")), "@khiin.sock.2");
}

#[test]
fn connect_retries_then_gives_up() {
    let mut retry = ConnectRetry::new();
    for i in 0..MAX_CONNECT_ATTEMPTS {
        assert_eq!(retry.attempts, i);
        assert_eq!(retry.on_connect_failed(), ConnectStep::LaunchServiceAndRetry);
    }
    assert_eq!(retry.attempts, 100);
    assert_eq!(retry.on_connect_failed(), ConnectStep::GiveUp);
    assert_eq!(retry.on_connect_failed(), ConnectStep::GiveUp);
    assert_eq!(retry.attempts, 100);
}

#[test]
fn message_window_handles_only_engine_replies() {
    assert!(message_handler_handles(WM_KHIIN_COMMAND));
    assert!(message_handler_handles(0x0400));
    assert!(!message_handler_handles(0x0401));
    assert!(!message_handler_handles(0x0081));
}

#[test]
fn window_events_are_decoded() {
    assert_eq!(window_event(0x0081, 0, 0), WindowEvent::Create);
    assert_eq!(window_event(0x02E0, 0x0090_0090, 0), WindowEvent::DpiChanged(0x90));
    let lparam: isize = (0x0014 << 16) | 0xFFFE;
    assert_eq!(window_event(0x0200, 0, lparam), WindowEvent::MouseMove(Point { x: -2, y: 20 }));
    assert_eq!(window_event(0x0201, 0, (5 << 16) | 7), WindowEvent::Click(Point { x: 7, y: 5 }));
    assert_eq!(window_event(0x02A3, 0, 0), WindowEvent::MouseLeave);
    assert_eq!(window_event(0x0018, 0, 0), WindowEvent::Hide);
    assert_eq!(window_event(0x0018, 1, 0), WindowEvent::Show);
    assert_eq!(window_event(0x000F, 0, 0), WindowEvent::Paint);
    assert_eq!(window_event(0x0100, 0, 0), WindowEvent::Unhandled);
}

#[test]
fn sink_registration_round_trip() {
    let mut reg = SinkRegistration::new();
    assert_eq!(reg.cookie, TF_INVALID_COOKIE);
    assert_eq!(reg.unadvise_plan(), UnadvisePlan::Nothing);
    reg.advised(17);
    assert_eq!(reg.unadvise_plan(), UnadvisePlan::UnadviseThenForget(17));
    reg.forget();
    assert_eq!(reg.unadvise_plan(), UnadvisePlan::Nothing);
    let half = SinkRegistration { cookie: 3, has_source: false };
    assert_eq!(half.unadvise_plan(), UnadvisePlan::Forget);
}

#[test]
fn draw_plan_numbers_cells_across_columns() {
    use_draw_plan();
}

fn use_draw_plan() {
    let cols = vec![vec![10, 11, 12], vec![20, 21]];
    let plan = khiin_windows::renderer::draw_plan(&cols, 21, 11, 1, true);
    assert_eq!(plan.len(), 5);
    let labels: Vec<usize> = plan.iter().map(|c| c.label).collect();
    assert_eq!(labels, vec![1, 2, 3, 4, 5]);
    assert_eq!((plan[3].col, plan[3].row), (1, 0));
    assert!(plan[1].style.focused_background);
    assert!(!plan[1].style.bubble);
    assert!(plan[4].style.focused_background && plan[4].style.bubble);
    assert!(!plan[0].style.quick_select);
    assert!(plan[3].style.quick_select && plan[3].style.quick_select_active);
}
