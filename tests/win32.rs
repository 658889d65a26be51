use native_window::events::{
    Event, KeyEvent, MouseButtonEvent, MouseMoveEvent, MouseWheelEvent, WindowEvent,
    WindowResizeEvent,
};
use native_window::inputs::{Key, MouseButton, MouseWheelDirection};
use native_window::win32::{
    get_wheel_delta_wparam, get_x_lparam, get_y_lparam, message_action, outer_frame,
    ClientRect, Error, MessageAction, WindowFrame, WM_CLOSE, WM_DESTROY,
    WM_ERASEBKGND, WM_KEYDOWN, WM_KEYUP, WM_LBUTTONDOWN, WM_LBUTTONUP, WM_MBUTTONDOWN,
    WM_MOUSEMOVE, WM_MOUSEWHEEL, WM_RBUTTONUP, WM_SIZE, WM_SYSKEYDOWN, WM_SYSKEYUP,
};
use native_window::Rect;

#[test]
fn close_message_notifies_without_default_handling() {
    assert_eq!(
        message_action(WM_CLOSE, 0, 0),
        MessageAction::Dispatch(Event::Window(WindowEvent::CloseWindow))
    );
}

#[test]
fn destroy_message_quits() {
    assert_eq!(message_action(WM_DESTROY, 0, 0), MessageAction::Quit);
}

#[test]
fn erase_background_is_answered() {
    assert_eq!(message_action(WM_ERASEBKGND, 0, 0), MessageAction::Answer(1));
}

#[test]
fn unknown_message_goes_to_default() {
    assert_eq!(message_action(0x0400, 1, 2), MessageAction::Default);
    assert_eq!(message_action(0x0001, 0, 0), MessageAction::Default);
}

#[test]
fn size_message_reports_its_words() {
    assert_eq!(
        message_action(WM_SIZE, 0, (600 << 16) | 800),
        MessageAction::Dispatch(Event::Resize(WindowResizeEvent { width: 800, height: 600 }))
    );
    assert_eq!(
        message_action(WM_SIZE, 0, 0),
        MessageAction::Dispatch(Event::Resize(WindowResizeEvent { width: 0, height: 0 }))
    );
}

#[test]
fn key_messages() {
    assert_eq!(
        message_action(WM_KEYDOWN, 0x41, 1),
        MessageAction::Dispatch(Event::Key(KeyEvent { key: Key::A, down: true, repeat: 0 }))
    );
    assert_eq!(
        message_action(WM_SYSKEYDOWN, 0x12, 1),
        MessageAction::Dispatch(Event::Key(KeyEvent { key: Key::Menu, down: true, repeat: 0 }))
    );
    assert_eq!(
        message_action(WM_KEYUP, 0x1B, 1),
        MessageAction::Dispatch(Event::Key(KeyEvent { key: Key::Esc, down: false, repeat: 0 }))
    );
    assert_eq!(
        message_action(WM_SYSKEYUP, 0x3A, 1),
        MessageAction::Dispatch(Event::Key(KeyEvent {
            key: Key::Unidentified,
            down: false,
            repeat: 0
        }))
    );
}

#[test]
fn key_repeat_is_reduced_to_a_flag() {
    assert_eq!(
        message_action(WM_KEYDOWN, 0x20, 0x4000_0001),
        MessageAction::Dispatch(Event::Key(KeyEvent { key: Key::Space, down: true, repeat: 1 }))
    );
    assert_eq!(
        message_action(WM_KEYDOWN, 0x20, 0x4000_0020),
        MessageAction::Dispatch(Event::Key(KeyEvent { key: Key::Space, down: true, repeat: 1 }))
    );
    assert_eq!(
        message_action(WM_KEYDOWN, 0x20, 5),
        MessageAction::Dispatch(Event::Key(KeyEvent { key: Key::Space, down: true, repeat: 0 }))
    );
    assert_eq!(
        message_action(WM_KEYUP, 0x20, 0xC000_0001u32 as i32 as isize),
        MessageAction::Dispatch(Event::Key(KeyEvent { key: Key::Space, down: false, repeat: 1 }))
    );
}

#[test]
fn key_code_uses_low_word_of_wparam() {
    assert_eq!(
        message_action(WM_KEYDOWN, 0x0001_0041, 0),
        MessageAction::Dispatch(Event::Key(KeyEvent { key: Key::A, down: true, repeat: 0 }))
    );
}

#[test]
fn mouse_move_coordinates() {
    let lparam: isize = (600 << 16) | 800;
    assert_eq!(
        message_action(WM_MOUSEMOVE, 0, lparam),
        MessageAction::Dispatch(Event::MouseMove(MouseMoveEvent { x_pos: 800, y_pos: 600 }))
    );
}

#[test]
fn lparam_words() {
    assert_eq!(get_x_lparam(0x0025_0010), 0x10);
    assert_eq!(get_y_lparam(0x0025_0010), 0x25);
    assert_eq!(get_x_lparam(-1), 0xFFFF);
    assert_eq!(get_y_lparam(-1), 0xFFFF);
}

#[test]
fn wheel_delta_is_signed_high_word() {
    assert_eq!(get_wheel_delta_wparam(0x0078_0000), 120);
    assert_eq!(get_wheel_delta_wparam(0xFF88_0000), -120);
    assert_eq!(get_wheel_delta_wparam(0x0000_0004), 0);
}

#[test]
fn wheel_messages() {
    assert_eq!(
        message_action(WM_MOUSEWHEEL, 0x0078_0000, 0),
        MessageAction::Dispatch(Event::MouseWheel(MouseWheelEvent {
            direction: MouseWheelDirection::Up
        }))
    );
    assert_eq!(
        message_action(WM_MOUSEWHEEL, 0xFF88_0000, 0),
        MessageAction::Dispatch(Event::MouseWheel(MouseWheelEvent {
            direction: MouseWheelDirection::Down
        }))
    );
    assert_eq!(message_action(WM_MOUSEWHEEL, 0x0000_0008, 0), MessageAction::Answer(0));
}

#[test]
fn button_messages() {
    assert_eq!(
        message_action(WM_LBUTTONDOWN, 0, 0),
        MessageAction::Dispatch(Event::MouseButton(MouseButtonEvent {
            down: true,
            button: MouseButton::Left
        }))
    );
    assert_eq!(
        message_action(WM_LBUTTONUP, 0, 0),
        MessageAction::Dispatch(Event::MouseButton(MouseButtonEvent {
            down: false,
            button: MouseButton::Left
        }))
    );
    assert_eq!(
        message_action(WM_RBUTTONUP, 0, 0),
        MessageAction::Dispatch(Event::MouseButton(MouseButtonEvent {
            down: false,
            button: MouseButton::Right
        }))
    );
    assert_eq!(
        message_action(WM_MBUTTONDOWN, 0, 0),
        MessageAction::Dispatch(Event::MouseButton(MouseButtonEvent {
            down: true,
            button: MouseButton::Middle
        }))
    );
}

#[test]
fn client_size_of_rect() {
    let client = ClientRect { left: 0, top: 0, right: 1024, bottom: 768 };
    assert_eq!(client.size(), Rect { x: 1024, y: 768 });
    let wide = ClientRect { left: 0, top: 0, right: 70000, bottom: 5 };
    assert_eq!(wide.size(), Rect { x: 4464, y: 5 });
}

#[test]
fn outer_frame_adds_insets() {
    let insets = ClientRect { left: -8, top: -31, right: 8, bottom: 8 };
    assert_eq!(
        outer_frame(10, 20, 800, 600, insets),
        Some(WindowFrame { x: 2, y: -11, width: 816, height: 639 })
    );
    let none = ClientRect { left: 0, top: 0, right: 0, bottom: 0 };
    assert_eq!(
        outer_frame(0, 0, 640, 480, none),
        Some(WindowFrame { x: 0, y: 0, width: 640, height: 480 })
    );
}

#[test]
fn outer_frame_that_does_not_fit() {
    let insets = ClientRect { left: i32::MIN, top: 0, right: 0, bottom: 0 };
    assert_eq!(outer_frame(-1, 0, 10, 10, insets), None);
}

#[test]
fn error_constructors_keep_os_error() {
    let e = Error::register_window_class(std::io::Error::from_raw_os_error(5));
    assert!(matches!(e, Error::RegisterWindowClass(_)));
    assert_eq!(e.os_error().raw_os_error(), Some(5));
    assert_eq!(e.description(), "Failed to register window class");
    let e = Error::create_window(std::io::Error::from_raw_os_error(6));
    assert!(matches!(e, Error::CreateWindow(_)));
    assert_eq!(e.os_error().raw_os_error(), Some(6));
    assert_eq!(e.description(), "Failed to create window");
    let e = Error::SetTitle(std::io::Error::from_raw_os_error(7));
    assert_eq!(e.description(), "Failed to set title");
    let e = Error::ShowWindow(std::io::Error::from_raw_os_error(8));
    assert_eq!(e.description(), "Failed to show window");
}

#[test]
fn native_position_in_range() {
    assert_eq!(Rect::new(100, 200).as_native_position(), Some((100, 200)));
    assert_eq!(Rect::new(0x7FFF, 0).as_native_position(), Some((0x7FFF, 0)));
    let r = Rect::new(3, 4);
    assert_eq!((r.x, r.y), (3, 4));
}

#[test]
fn native_position_refuses_negative_range() {
    assert_eq!(Rect::new(0x8000, 0).as_native_position(), None);
    assert_eq!(Rect::new(0, 0xFFFF).as_native_position(), None);
}
