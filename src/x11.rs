//! Decision logic of the X11 backend: which neutral event, if any, each
//! native event becomes.
use vstd::prelude::*;

use crate::events::{
    Event, KeyEvent, MouseButtonEvent, MouseMoveEvent, MouseWheelEvent, WindowEvent,
    WindowResizeEvent,
};
use crate::inputs::{
    x11_button, x11_key, x11_wheel, x_translate_button, x_translate_key, x_translate_wheel,
};

verus! {

/// The part of a native X11 event that the backend reads.
#[derive(Debug, Clone, Copy, PartialEq, Eq, Structural)]
pub enum XEvent {
    /// A key went down; the keycode.
    KeyPress(u8),
    /// A key went up; the keycode.
    KeyRelease(u8),
    /// A pointer button went down; the button number.
    ButtonPress(u8),
    /// A pointer button went up; the button number.
    ButtonRelease(u8),
    /// The pointer moved, in window coordinates.
    MotionNotify { x: i16, y: i16 },
    /// The window took a new size.
    ConfigureNotify { width: u16, height: u16 },
    /// A client message; its first 32-bit data word.
    ClientMessage(u32),
    /// Any other event.
    Other,
}

/// The neutral event that a native event stands for, when it stands for one.
/// A button press of a wheel button is a wheel step, and its release stands
/// for nothing. A client message stands for a close request only when it
/// carries the window-deletion atom `delete_window`. A pointer position with
/// a negative coordinate is malformed for the neutral vocabulary and stands
/// for nothing.
pub open spec fn x_event_meaning(ev: XEvent, delete_window: u32) -> Option<Event> {
    match ev {
        XEvent::KeyPress(k) => Some(Event::Key(KeyEvent { key: x11_key(k), down: true, repeat: 0 })),
        XEvent::KeyRelease(k) => Some(
            Event::Key(KeyEvent { key: x11_key(k), down: false, repeat: 0 }),
        ),
        XEvent::ButtonPress(b) => match x11_wheel(b) {
            Some(direction) => Some(Event::MouseWheel(MouseWheelEvent { direction })),
            None => match x11_button(b) {
                Some(button) => Some(Event::MouseButton(MouseButtonEvent { down: true, button })),
                None => None,
            },
        },
        XEvent::ButtonRelease(b) => match x11_button(b) {
            Some(button) => Some(Event::MouseButton(MouseButtonEvent { down: false, button })),
            None => None,
        },
        XEvent::MotionNotify { x, y } => if x >= 0 && y >= 0 {
            Some(Event::MouseMove(MouseMoveEvent { x_pos: x as u32, y_pos: y as u32 }))
        } else {
            None
        },
        XEvent::ConfigureNotify { width, height } => Some(
            Event::Resize(WindowResizeEvent { width: width as u32, height: height as u32 }),
        ),
        XEvent::ClientMessage(atom) => if atom == delete_window {
            Some(Event::Window(WindowEvent::CloseWindow))
        } else {
            None
        },
        XEvent::Other => None,
    }
}

/// Translates one native event. Draining goes on after every event, a close
/// request included, until the queue is empty.
pub fn translate_event(ev: XEvent, delete_window: u32) -> (r: Option<Event>)
    ensures
        r == x_event_meaning(ev, delete_window),
{
    match ev {
        XEvent::KeyPress(k) => Some(
            Event::Key(KeyEvent { key: x_translate_key(k), down: true, repeat: 0 }),
        ),
        XEvent::KeyRelease(k) => Some(
            Event::Key(KeyEvent { key: x_translate_key(k), down: false, repeat: 0 }),
        ),
        XEvent::ButtonPress(b) => match x_translate_wheel(b) {
            Some(direction) => Some(Event::MouseWheel(MouseWheelEvent { direction })),
            None => match x_translate_button(b) {
                Some(button) => Some(Event::MouseButton(MouseButtonEvent { down: true, button })),
                None => None,
            },
        },
        XEvent::ButtonRelease(b) => match x_translate_button(b) {
            Some(button) => Some(Event::MouseButton(MouseButtonEvent { down: false, button })),
            None => None,
        },
        XEvent::MotionNotify { x, y } => {
            if x >= 0 && y >= 0 {
                Some(Event::MouseMove(MouseMoveEvent { x_pos: x as u32, y_pos: y as u32 }))
            } else {
                None
            }
        },
        XEvent::ConfigureNotify { width, height } => Some(
            Event::Resize(WindowResizeEvent { width: width as u32, height: height as u32 }),
        ),
        XEvent::ClientMessage(atom) => {
            if atom == delete_window {
                Some(Event::Window(WindowEvent::CloseWindow))
            } else {
                None
            }
        },
        XEvent::Other => None,
    }
}

} // verus!
