use vstd::prelude::*;
use vstd::string::StringExecFns;

use crate::key_event::KeyEvent;
use crate::key_event::KhiinKeyEvent;
use crate::geometry::Point;
use crate::win::get_x_param;
use crate::win::get_y_param;
use crate::win::hi_word;
use crate::win::signed_word;
use crate::win::spec_hi_word;
use crate::win::spec_lo_word;

verus! {

/// What a request asks of the engine.
#[derive(PartialEq, Eq, Structural, Clone, Copy, Debug)]
pub enum CommandType {
    /// Handle one key press.
    SendKey,
    /// Drop the current composition.
    Reset,
}

/// A request to the engine, as the input method sends it.
#[derive(PartialEq, Eq, Structural, Clone, Copy, Debug)]
pub struct Request {
    pub id: u32,
    pub kind: CommandType,
    pub key_event: Option<KhiinKeyEvent>,
}

/// Draws a request id.
///
/// Calls `rand::random::<u32>()`, which draws from the thread-local
/// generator. Any `u32` may come back, so nothing is stated of it. The call
/// panics only where the operating system's random source cannot seed that
/// generator, which no argument here controls.
#[verifier::external_body]
fn random_request_id() -> (id: u32) {
    rand::random::<u32>()
}

/// The request that hands one key press to the engine under the id `id`.
pub fn key_request(id: u32, key_event: &KeyEvent) -> (r: Request)
    ensures
        r.id == id,
        r.kind == CommandType::SendKey,
        r.key_event == Some(key_event.spec_to_khiin()),
{
    Request { id, kind: CommandType::SendKey, key_event: Some(key_event.to_khiin()) }
}

/// The request that resets the engine under the id `id`.
pub fn reset_request(id: u32) -> (r: Request)
    ensures
        r.id == id,
        r.kind == CommandType::Reset,
        r.key_event is None,
{
    Request { id, kind: CommandType::Reset, key_event: None }
}

/// The request for a key press, under a freshly drawn id.
pub fn handle_key(key_event: &KeyEvent) -> (r: Request)
    ensures
        r.kind == CommandType::SendKey,
        r.key_event == Some(key_event.spec_to_khiin()),
{
    let id = random_request_id();
    key_request(id, key_event)
}

/// The reset request, under a freshly drawn id.
pub fn send_reset_command() -> (r: Request)
    ensures
        r.kind == CommandType::Reset,
        r.key_event is None,
{
    let id = random_request_id();
    reset_request(id)
}

/// The name of the engine's local socket: a file path where the platform
/// only has those, a namespaced name elsewhere, then `khiin.` and `suffix`.
pub open spec fn spec_socket_name(only_paths: bool, suffix: Seq<char>) -> Seq<char> {
    (if only_paths {
        "/tmp/khiin."@
    } else {
        "@khiin."@
    }) + suffix
}

/// The suffix under which the service listens: `sock`, then a dot and the
/// first command-line argument where there is one.
pub open spec fn spec_socket_suffix(arg: Option<Seq<char>>) -> Seq<char> {
    match arg {
        Some(a) => "sock"@ + seq!['.'] + a,
        None => "sock"@,
    }
}

/// The socket the input method connects to.
pub fn client_socket_name(only_paths: bool) -> (r: String)
    ensures
        r@ == spec_socket_name(only_paths, "sock"@),
{
    let mut name = if only_paths {
        String::from_str("/tmp/khiin.")
    } else {
        String::from_str("@khiin.")
    };
    name.append("sock");
    name
}

/// The socket the service listens on, given its first command-line argument.
pub fn service_socket_name(only_paths: bool, arg: Option<&str>) -> (r: String)
    ensures
        r@ == spec_socket_name(
            only_paths,
            spec_socket_suffix(
                match arg {
                    Some(a) => Some(a@),
                    None => None,
                },
            ),
        ),
{
    let mut suffix = String::from_str("sock");
    match arg {
        Some(a) => {
            suffix.append(".");
            suffix.append(a);
            proof {
                reveal_strlit(".");
                assert("."@ =~= seq!['.']);
            }
        },
        None => {},
    }
    let mut name = if only_paths {
        String::from_str("/tmp/khiin.")
    } else {
        String::from_str("@khiin.")
    };
    name.append(suffix.as_str());
    proof {
        assert(name@ =~= spec_socket_name(
            only_paths,
            spec_socket_suffix(
                match arg {
                    Some(a) => Some(a@),
                    None => None,
                },
            ),
        ));
    }
    name
}

/// How many failed connections the input method follows with another try.
pub const MAX_CONNECT_ATTEMPTS: u32 = 100;

/// What to do after a connection to the engine failed.
#[derive(PartialEq, Eq, Structural, Clone, Copy, Debug)]
pub enum ConnectStep {
    /// Start the service, wait a moment, and connect again.
    LaunchServiceAndRetry,
    /// Stop trying and report the failure.
    GiveUp,
}

/// The count of failed connections so far.
#[derive(PartialEq, Eq, Structural, Clone, Copy, Debug)]
pub struct ConnectRetry {
    pub attempts: u32,
}

/// The step taken after a failure with `attempts` failures before it, and the
/// count after it.
pub open spec fn spec_after_failure(attempts: u32) -> (ConnectStep, u32) {
    if attempts >= MAX_CONNECT_ATTEMPTS {
        (ConnectStep::GiveUp, attempts)
    } else {
        (ConnectStep::LaunchServiceAndRetry, (attempts + 1) as u32)
    }
}

/// The count after `n` failures, starting from none.
pub open spec fn attempts_after(n: nat) -> u32
    decreases n,
{
    if n == 0 {
        0
    } else {
        spec_after_failure(attempts_after((n - 1) as nat)).1
    }
}

impl ConnectRetry {
    /// No failure yet.
    pub fn new() -> (r: Self)
        ensures
            r.attempts == 0,
    {
        ConnectRetry { attempts: 0 }
    }

    /// Records a failed connection and says what comes next.
    pub fn on_connect_failed(&mut self) -> (step: ConnectStep)
        ensures
            (step, final(self).attempts) == spec_after_failure(old(self).attempts),
    {
        if self.attempts >= MAX_CONNECT_ATTEMPTS {
            ConnectStep::GiveUp
        } else {
            self.attempts = self.attempts + 1;
            ConnectStep::LaunchServiceAndRetry
        }
    }
}

/// From a fresh start, the first `MAX_CONNECT_ATTEMPTS` failures each launch
/// the service and try again, and every failure after them gives up.
pub proof fn lemma_connect_gives_up_after_max(n: nat)
    ensures
        attempts_after(n) == (if n <= MAX_CONNECT_ATTEMPTS {
            n
        } else {
            MAX_CONNECT_ATTEMPTS as nat
        }),
        spec_after_failure(attempts_after(n)).0 == (if n < MAX_CONNECT_ATTEMPTS {
            ConnectStep::LaunchServiceAndRetry
        } else {
            ConnectStep::GiveUp
        }),
    decreases n,
{
    if n > 0 {
        lemma_connect_gives_up_after_max((n - 1) as nat);
    }
}

/// The message by which the engine's reply reaches the input method's
/// message window (WM_USER).
pub const WM_KHIIN_COMMAND: u32 = 0x0400;

/// WM_NCCREATE: a window is being created.
pub const WM_NCCREATE: u32 = 0x0081;
/// WM_SHOWWINDOW: a window is shown or hidden.
pub const WM_SHOWWINDOW: u32 = 0x0018;
/// WM_PAINT: a window must be drawn.
pub const WM_PAINT: u32 = 0x000F;
/// WM_MOUSEMOVE: the mouse moved over a window.
pub const WM_MOUSEMOVE: u32 = 0x0200;
/// WM_LBUTTONDOWN: the left button was pressed over a window.
pub const WM_LBUTTONDOWN: u32 = 0x0201;
/// WM_MOUSELEAVE: the mouse left a window.
pub const WM_MOUSELEAVE: u32 = 0x02A3;
/// WM_DPICHANGED: a window's resolution changed.
pub const WM_DPICHANGED: u32 = 0x02E0;

/// Whether the message window handles `message` itself: only the engine's
/// replies; everything else goes to the default procedure.
pub fn message_handler_handles(message: u32) -> (r: bool)
    ensures
        r == (message == WM_KHIIN_COMMAND),
{
    message == WM_KHIIN_COMMAND
}

/// A window message as the input method's windows handle it.
#[derive(PartialEq, Eq, Structural, Clone, Copy, Debug)]
pub enum WindowEvent {
    /// The window is being created: round its corners.
    Create,
    /// The resolution changed to this many dots per inch.
    DpiChanged(u16),
    MouseMove(Point),
    MouseLeave,
    Click(Point),
    Show,
    Hide,
    Paint,
    /// Left to the default procedure.
    Unhandled,
}

/// The point packed into a mouse message's `lParam`.
pub open spec fn spec_lparam_point(lparam: isize) -> Point {
    Point {
        x: signed_word(spec_lo_word(lparam as u32)) as i32,
        y: signed_word(spec_hi_word(lparam as u32)) as i32,
    }
}

/// How a window message is handled.
pub open spec fn spec_window_event(message: u32, wparam: usize, lparam: isize) -> WindowEvent {
    if message == WM_NCCREATE {
        WindowEvent::Create
    } else if message == WM_DPICHANGED {
        WindowEvent::DpiChanged(spec_hi_word(wparam as u32))
    } else if message == WM_MOUSEMOVE {
        WindowEvent::MouseMove(spec_lparam_point(lparam))
    } else if message == WM_MOUSELEAVE {
        WindowEvent::MouseLeave
    } else if message == WM_LBUTTONDOWN {
        WindowEvent::Click(spec_lparam_point(lparam))
    } else if message == WM_SHOWWINDOW {
        if wparam == 0 {
            WindowEvent::Hide
        } else {
            WindowEvent::Show
        }
    } else if message == WM_PAINT {
        WindowEvent::Paint
    } else {
        WindowEvent::Unhandled
    }
}

/// Sorts a window message into the event that the window handles.
pub fn window_event(message: u32, wparam: usize, lparam: isize) -> (r: WindowEvent)
    ensures
        r == spec_window_event(message, wparam, lparam),
{
    if message == WM_NCCREATE {
        WindowEvent::Create
    } else if message == WM_DPICHANGED {
        WindowEvent::DpiChanged(hi_word(wparam as u32))
    } else if message == WM_MOUSEMOVE {
        WindowEvent::MouseMove(Point { x: get_x_param(lparam), y: get_y_param(lparam) })
    } else if message == WM_MOUSELEAVE {
        WindowEvent::MouseLeave
    } else if message == WM_LBUTTONDOWN {
        WindowEvent::Click(Point { x: get_x_param(lparam), y: get_y_param(lparam) })
    } else if message == WM_SHOWWINDOW {
        if wparam == 0 {
            WindowEvent::Hide
        } else {
            WindowEvent::Show
        }
    } else if message == WM_PAINT {
        WindowEvent::Paint
    } else {
        WindowEvent::Unhandled
    }
}

} // verus!
