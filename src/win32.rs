//! Decision logic of the Win32 backend: its error type, the per-window
//! context, window geometry and the decoding of window messages.
use vstd::prelude::*;

use crate::events::{
    Event, KeyEvent, MouseButtonEvent, MouseMoveEvent, MouseWheelEvent, WindowEvent,
    WindowResizeEvent,
};
use crate::inputs::{win32_key, Key, MouseButton, MouseWheelDirection};
use crate::Rect;
use std::sync::Arc;

verus! {

/// Declares std's `std::io::Error`, so that `Error` can carry the operating
/// system's error as it was reported. Nothing about its contents is assumed.
#[verifier::external_type_specification]
#[verifier::external_body]
pub struct ExIoError(std::io::Error);

/// Why a Win32 window operation failed, with the operating system's error.
#[derive(Debug)]
pub enum Error {
    RegisterWindowClass(std::io::Error),
    CreateWindow(std::io::Error),
    ShowWindow(std::io::Error),
    SetTitle(std::io::Error),
}

impl Error {
    pub fn register_window_class(err: std::io::Error) -> (r: Self)
        ensures
            r == Error::RegisterWindowClass(err),
    {
        Error::RegisterWindowClass(err)
    }

    pub fn create_window(err: std::io::Error) -> (r: Self)
        ensures
            r == Error::CreateWindow(err),
    {
        Error::CreateWindow(err)
    }

    /// What failed, in words.
    pub fn description(&self) -> (r: &'static str)
        ensures
            match self {
                Error::RegisterWindowClass(_) => r@ == "Failed to register window class"@,
                Error::CreateWindow(_) => r@ == "Failed to create window"@,
                Error::ShowWindow(_) => r@ == "Failed to show window"@,
                Error::SetTitle(_) => r@ == "Failed to set title"@,
            },
    {
        match self {
            Error::RegisterWindowClass(_) => "Failed to register window class",
            Error::CreateWindow(_) => "Failed to create window",
            Error::ShowWindow(_) => "Failed to show window",
            Error::SetTitle(_) => "Failed to set title",
        }
    }

    /// The operating system's error behind this failure.
    pub fn os_error(&self) -> (r: &std::io::Error)
        ensures
            match self {
                Error::RegisterWindowClass(e) => r == e,
                Error::CreateWindow(e) => r == e,
                Error::ShowWindow(e) => r == e,
                Error::SetTitle(e) => r == e,
            },
    {
        match self {
            Error::RegisterWindowClass(e) => e,
            Error::CreateWindow(e) => e,
            Error::ShowWindow(e) => e,
            Error::SetTitle(e) => e,
        }
    }
}

/// The context attached to a native window: the sink that its messages go to.
pub struct UserData<E: ?Sized> {
    events: Arc<E>,
}

impl<E: ?Sized> UserData<E> {
    /// The sink that this context holds.
    pub closed spec fn sink(&self) -> Arc<E> {
        self.events
    }

    pub fn new(events: Arc<E>) -> (r: Self)
        ensures
            r.sink() == events,
    {
        UserData { events }
    }

    pub fn events(&self) -> (r: &E)
        ensures
            r == &*self.sink(),
    {
        &*self.events
    }
}

/// Window message numbers, as the Win32 headers define them.
pub const WM_DESTROY: u32 = 0x0002;
pub const WM_SIZE: u32 = 0x0005;
pub const WM_CLOSE: u32 = 0x0010;
pub const WM_ERASEBKGND: u32 = 0x0014;
pub const WM_KEYDOWN: u32 = 0x0100;
pub const WM_KEYUP: u32 = 0x0101;
pub const WM_SYSKEYDOWN: u32 = 0x0104;
pub const WM_SYSKEYUP: u32 = 0x0105;
pub const WM_MOUSEMOVE: u32 = 0x0200;
pub const WM_LBUTTONDOWN: u32 = 0x0201;
pub const WM_LBUTTONUP: u32 = 0x0202;
pub const WM_RBUTTONDOWN: u32 = 0x0204;
pub const WM_RBUTTONUP: u32 = 0x0205;
pub const WM_MBUTTONDOWN: u32 = 0x0207;
pub const WM_MBUTTONUP: u32 = 0x0208;
pub const WM_MOUSEWHEEL: u32 = 0x020A;

/// What the window procedure does with one message.
#[derive(Debug, Clone, Copy, PartialEq, Eq, Structural)]
pub enum MessageAction {
    /// Hand the event to the sink, then answer 0.
    Dispatch(Event),
    /// Answer the value, calling nothing.
    Answer(isize),
    /// Post the quit message, then answer 0.
    Quit,
    /// Leave the message to the default window procedure.
    Default,
}

pub open spec fn is_key_message(msg: u32) -> bool {
    msg == WM_KEYDOWN || msg == WM_SYSKEYDOWN || msg == WM_KEYUP || msg == WM_SYSKEYUP
}

pub open spec fn is_button_message(msg: u32) -> bool {
    msg == WM_LBUTTONDOWN || msg == WM_MBUTTONDOWN || msg == WM_RBUTTONDOWN || msg
        == WM_LBUTTONUP || msg == WM_MBUTTONUP || msg == WM_RBUTTONUP
}

/// The messages that the window procedure answers itself.
pub open spec fn is_handled_message(msg: u32) -> bool {
    msg == WM_ERASEBKGND || msg == WM_CLOSE || msg == WM_DESTROY || msg == WM_SIZE
        || is_key_message(msg) || msg == WM_MOUSEMOVE || msg == WM_MOUSEWHEEL
        || is_button_message(msg)
}

/// The low word of an `LPARAM`: the x coordinate of a pointer message, the
/// width of a size message.
pub open spec fn x_lparam(lparam: isize) -> u32 {
    (lparam as u16) as u32
}

/// The second word of an `LPARAM`: the y coordinate of a pointer message, the
/// height of a size message.
pub open spec fn y_lparam(lparam: isize) -> u32 {
    ((lparam >> 16u32) as u16) as u32
}

/// The high word of a wheel message's `WPARAM`, read as a signed delta.
pub open spec fn wheel_delta(wparam: usize) -> i16 {
    (wparam >> 16u32) as i16
}

/// The repeat indicator of a key message: 1 when the previous-state bit
/// (bit 30) says the key was already down, else 0.
pub open spec fn repeat_flag(lparam: isize) -> u32 {
    if lparam & 0x4000_0000isize == 0 {
        0
    } else {
        1
    }
}

/// The button that a pointer button message names.
pub open spec fn message_button(msg: u32) -> MouseButton {
    if msg == WM_LBUTTONDOWN || msg == WM_LBUTTONUP {
        MouseButton::Left
    } else if msg == WM_RBUTTONDOWN || msg == WM_RBUTTONUP {
        MouseButton::Right
    } else {
        MouseButton::Middle
    }
}

pub fn get_x_lparam(lparam: isize) -> (r: u32)
    ensures
        r == x_lparam(lparam),
{
    (lparam as u16) as u32
}

pub fn get_y_lparam(lparam: isize) -> (r: u32)
    ensures
        r == y_lparam(lparam),
{
    ((lparam >> 16u32) as u16) as u32
}

pub fn get_wheel_delta_wparam(wparam: usize) -> (r: i16)
    ensures
        r == wheel_delta(wparam),
{
    (wparam >> 16u32) as i16
}

/// Decides what the window procedure does with message `msg`.
pub fn message_action(msg: u32, wparam: usize, lparam: isize) -> (r: MessageAction)
    ensures
        msg == WM_ERASEBKGND ==> r == MessageAction::Answer(1),
        msg == WM_CLOSE ==> r == MessageAction::Dispatch(Event::Window(WindowEvent::CloseWindow)),
        msg == WM_DESTROY ==> r == MessageAction::Quit,
        msg == WM_SIZE ==> r == MessageAction::Dispatch(
            Event::Resize(WindowResizeEvent { width: x_lparam(lparam), height: y_lparam(lparam) }),
        ),
        is_key_message(msg) ==> r == MessageAction::Dispatch(
            Event::Key(
                KeyEvent {
                    key: win32_key(wparam as u16),
                    down: msg == WM_KEYDOWN || msg == WM_SYSKEYDOWN,
                    repeat: repeat_flag(lparam),
                },
            ),
        ),
        msg == WM_MOUSEMOVE ==> r == MessageAction::Dispatch(
            Event::MouseMove(MouseMoveEvent { x_pos: x_lparam(lparam), y_pos: y_lparam(lparam) }),
        ),
        msg == WM_MOUSEWHEEL && wheel_delta(wparam) > 0 ==> r == MessageAction::Dispatch(
            Event::MouseWheel(MouseWheelEvent { direction: MouseWheelDirection::Up }),
        ),
        msg == WM_MOUSEWHEEL && wheel_delta(wparam) < 0 ==> r == MessageAction::Dispatch(
            Event::MouseWheel(MouseWheelEvent { direction: MouseWheelDirection::Down }),
        ),
        msg == WM_MOUSEWHEEL && wheel_delta(wparam) == 0 ==> r == MessageAction::Answer(0),
        is_button_message(msg) ==> r == MessageAction::Dispatch(
            Event::MouseButton(
                MouseButtonEvent {
                    down: msg == WM_LBUTTONDOWN || msg == WM_MBUTTONDOWN || msg == WM_RBUTTONDOWN,
                    button: message_button(msg),
                },
            ),
        ),
        !is_handled_message(msg) ==> r == MessageAction::Default,
{
    if msg == WM_ERASEBKGND {
        // the application paints the whole client area itself
        MessageAction::Answer(1)
    } else if msg == WM_CLOSE {
        MessageAction::Dispatch(Event::Window(WindowEvent::CloseWindow))
    } else if msg == WM_DESTROY {
        MessageAction::Quit
    } else if msg == WM_SIZE {
        // the new client width and height are the low and high words
        let width = get_x_lparam(lparam);
        let height = get_y_lparam(lparam);
        MessageAction::Dispatch(Event::Resize(WindowResizeEvent { width, height }))
    } else if msg == WM_KEYDOWN || msg == WM_SYSKEYDOWN || msg == WM_KEYUP || msg == WM_SYSKEYUP {
        let down = msg == WM_KEYDOWN || msg == WM_SYSKEYDOWN;
        let key = Key::from_win32_key(wparam as u16);
        let repeat: u32 = if lparam & 0x4000_0000isize == 0 {
            0
        } else {
            1
        };
        MessageAction::Dispatch(Event::Key(KeyEvent { key, down, repeat }))
    } else if msg == WM_MOUSEMOVE {
        let x_pos = get_x_lparam(lparam);
        let y_pos = get_y_lparam(lparam);
        MessageAction::Dispatch(Event::MouseMove(MouseMoveEvent { x_pos, y_pos }))
    } else if msg == WM_MOUSEWHEEL {
        match MouseWheelDirection::from_delta(get_wheel_delta_wparam(wparam)) {
            Some(direction) => MessageAction::Dispatch(
                Event::MouseWheel(MouseWheelEvent { direction }),
            ),
            None => MessageAction::Answer(0),
        }
    } else if msg == WM_LBUTTONDOWN || msg == WM_MBUTTONDOWN || msg == WM_RBUTTONDOWN || msg
        == WM_LBUTTONUP || msg == WM_MBUTTONUP || msg == WM_RBUTTONUP {
        let down = msg == WM_LBUTTONDOWN || msg == WM_MBUTTONDOWN || msg == WM_RBUTTONDOWN;
        let button = if msg == WM_LBUTTONDOWN || msg == WM_LBUTTONUP {
            MouseButton::Left
        } else if msg == WM_RBUTTONDOWN || msg == WM_RBUTTONUP {
            MouseButton::Right
        } else {
            MouseButton::Middle
        };
        MessageAction::Dispatch(Event::MouseButton(MouseButtonEvent { down, button }))
    } else {
        MessageAction::Default
    }
}

/// A rectangle as Win32 reports it: a client area, or the frame insets
/// around an empty client area.
#[derive(Debug, Clone, Copy, PartialEq, Eq, Structural)]
pub struct ClientRect {
    pub left: i32,
    pub top: i32,
    pub right: i32,
    pub bottom: i32,
}

impl ClientRect {
    /// The width and height, each reduced modulo 2^16.
    pub fn size(&self) -> (r: Rect)
        requires
            self.left <= self.right,
            self.top <= self.bottom,
        ensures
            r.x as int == (self.right - self.left) % 0x10000,
            r.y as int == (self.bottom - self.top) % 0x10000,
    {
        let w: i64 = self.right as i64 - self.left as i64;
        let h: i64 = self.bottom as i64 - self.top as i64;
        Rect { x: (w % 0x10000) as u16, y: (h % 0x10000) as u16 }
    }
}

/// Position and outer size of a native window.
#[derive(Debug, Clone, Copy, PartialEq, Eq, Structural)]
pub struct WindowFrame {
    pub x: i32,
    pub y: i32,
    pub width: i32,
    pub height: i32,
}

/// Whether the frame that `outer_frame` computes fits in `i32`.
pub open spec fn frame_fits(x: i16, y: i16, width: u16, height: u16, insets: ClientRect) -> bool {
    let w = width + (insets.right - insets.left);
    let h = height + (insets.bottom - insets.top);
    i32::MIN <= x + insets.left <= i32::MAX && i32::MIN <= y + insets.top <= i32::MAX && i32::MIN
        <= w <= i32::MAX && i32::MIN <= h <= i32::MAX
}

/// The window frame whose client area sits at (`x`, `y`) with the requested
/// size, given the insets that the window style adds around an empty client
/// area (negative on the left and top); none where it does not fit in `i32`.
pub fn outer_frame(x: i16, y: i16, width: u16, height: u16, insets: ClientRect) -> (r: Option<
    WindowFrame,
>)
    ensures
        frame_fits(x, y, width, height, insets) <==> r is Some,
        r matches Some(f) ==> {
            &&& f.x == x + insets.left
            &&& f.y == y + insets.top
            &&& f.width == width + (insets.right - insets.left)
            &&& f.height == height + (insets.bottom - insets.top)
        },
{
    let fx: i64 = x as i64 + insets.left as i64;
    let fy: i64 = y as i64 + insets.top as i64;
    let fw: i64 = width as i64 + (insets.right as i64 - insets.left as i64);
    let fh: i64 = height as i64 + (insets.bottom as i64 - insets.top as i64);
    if i32::MIN as i64 <= fx && fx <= i32::MAX as i64 && i32::MIN as i64 <= fy && fy
        <= i32::MAX as i64 && i32::MIN as i64 <= fw && fw <= i32::MAX as i64 && i32::MIN as i64
        <= fh && fh <= i32::MAX as i64 {
        Some(WindowFrame { x: fx as i32, y: fy as i32, width: fw as i32, height: fh as i32 })
    } else {
        None
    }
}

} // verus!
