//! Event payloads and the sink that receives them.
use vstd::prelude::*;

use crate::inputs::{Key, MouseButton, MouseWheelDirection};

verus! {

/// The receiver of translated events, implemented by the caller. The backend
/// calls exactly one method per native event that carries meaning.
pub trait EventSystem: std::fmt::Debug {
    fn invoke_mouse_button_event(&self, e: MouseButtonEvent);

    fn invoke_mouse_wheel_event(&self, e: MouseWheelEvent);

    fn invoke_mouse_move_event(&self, e: MouseMoveEvent);

    fn invoke_key_event(&self, e: KeyEvent);

    fn invoke_window_resize_event(&self, e: WindowResizeEvent);

    fn invoke_window_event(&self, e: WindowEvent);
}

/// A notification about the window as a whole.
#[derive(Debug, Clone, Copy, PartialEq, Eq, Structural)]
pub enum WindowEvent {
    CloseWindow,
}

/// The client area took a new size.
#[derive(Debug, Clone, Copy, PartialEq, Eq, Structural)]
pub struct WindowResizeEvent {
    pub width: u32,
    pub height: u32,
}

/// A pointer button went down or up.
#[derive(Debug, Clone, Copy, PartialEq, Eq, Structural)]
pub struct MouseButtonEvent {
    pub down: bool,
    pub button: MouseButton,
}

/// The pointer moved to a position in client-area coordinates.
#[derive(Debug, Clone, Copy, PartialEq, Eq, Structural)]
pub struct MouseMoveEvent {
    pub x_pos: u32,
    pub y_pos: u32,
}

/// The vertical wheel moved one step.
#[derive(Debug, Clone, Copy, PartialEq, Eq, Structural)]
pub struct MouseWheelEvent {
    pub direction: MouseWheelDirection,
}

/// A key went down or up; `repeat` is 0 or 1.
#[derive(Debug, Clone, Copy, PartialEq, Eq, Structural)]
pub struct KeyEvent {
    pub key: Key,
    pub down: bool,
    pub repeat: u32,
}

/// One translated event, of any of the shapes an `EventSystem` receives.
#[derive(Debug, Clone, Copy, PartialEq, Eq, Structural)]
pub enum Event {
    MouseButton(MouseButtonEvent),
    MouseWheel(MouseWheelEvent),
    MouseMove(MouseMoveEvent),
    Key(KeyEvent),
    Resize(WindowResizeEvent),
    Window(WindowEvent),
}

impl Event {
    /// Hands the event to the sink method made for its shape.
    pub fn deliver<E: EventSystem + ?Sized>(self, sink: &E) {
        match self {
            Event::MouseButton(e) => sink.invoke_mouse_button_event(e),
            Event::MouseWheel(e) => sink.invoke_mouse_wheel_event(e),
            Event::MouseMove(e) => sink.invoke_mouse_move_event(e),
            Event::Key(e) => sink.invoke_key_event(e),
            Event::Resize(e) => sink.invoke_window_resize_event(e),
            Event::Window(e) => sink.invoke_window_event(e),
        }
    }
}

} // verus!
