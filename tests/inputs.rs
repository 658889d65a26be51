use native_window::inputs::{
    x_translate_button, x_translate_key, x_translate_wheel, Key, MouseButton, MouseWheelDirection,
};

#[test]
fn as_u8_named_buttons() {
    assert_eq!(MouseButton::Left.as_u8(), 0);
    assert_eq!(MouseButton::Right.as_u8(), 1);
    assert_eq!(MouseButton::Middle.as_u8(), 2);
}

#[test]
fn as_u8_custom_offsets_by_three() {
    assert_eq!(MouseButton::Custom(0).as_u8(), 3);
    assert_eq!(MouseButton::Custom(7).as_u8(), 10);
    assert_eq!(MouseButton::Custom(252).as_u8(), 255);
}

#[test]
fn as_u8_wraps_at_custom_253() {
    assert_eq!(MouseButton::Custom(253).as_u8(), 0);
    assert_eq!(MouseButton::Custom(253).as_u8(), MouseButton::Left.as_u8());
    assert_eq!(MouseButton::Custom(255).as_u8(), 2);
}

#[test]
fn as_u8_distinct_below_boundary() {
    let mut seen = vec![false; 256];
    let mut all = vec![MouseButton::Left, MouseButton::Right, MouseButton::Middle];
    for c in 0..=252u8 {
        all.push(MouseButton::Custom(c));
    }
    for b in all {
        let o = b.as_u8() as usize;
        assert!(!seen[o]);
        seen[o] = true;
    }
}

#[test]
fn win32_key_table_named_codes() {
    assert_eq!(Key::from_win32_key(0x41), Key::A);
    assert_eq!(Key::from_win32_key(0x08), Key::BackSpace);
    assert_eq!(Key::from_win32_key(0x1B), Key::Esc);
    assert_eq!(Key::from_win32_key(0x70), Key::F1);
    assert_eq!(Key::from_win32_key(0x87), Key::F24);
    assert_eq!(Key::from_win32_key(0xE4), Key::PageUp);
    assert_eq!(Key::from_win32_key(0x21), Key::Prior);
}

#[test]
fn win32_key_table_absent_codes() {
    assert_eq!(Key::from_win32_key(0x00), Key::Unidentified);
    assert_eq!(Key::from_win32_key(0x3A), Key::Unidentified);
    assert_eq!(Key::from_win32_key(0xFF), Key::Unidentified);
    assert_eq!(Key::from_win32_key(0x1241), Key::Unidentified);
}

#[test]
fn win32_key_table_round_trip_and_repeat() {
    let mut found = 0;
    for code in 0..=0xFFFFu16 {
        let k = Key::from_win32_key(code);
        assert_eq!(k, Key::from_win32_key(code));
        if k != Key::Unidentified {
            assert_eq!(k.win32_code(), code);
            found += 1;
        }
    }
    assert_eq!(found, 136);
    assert_eq!(Key::Unidentified.win32_code(), 0);
}

#[test]
fn x11_key_table_named_codes() {
    assert_eq!(x_translate_key(9), Key::Esc);
    assert_eq!(x_translate_key(38), Key::A);
    assert_eq!(x_translate_key(10), Key::Digit1);
    assert_eq!(x_translate_key(19), Key::Digit0);
    assert_eq!(x_translate_key(65), Key::Space);
    assert_eq!(x_translate_key(113), Key::Left);
    assert_eq!(x_translate_key(202), Key::F24);
}

#[test]
fn x11_key_table_absent_codes() {
    assert_eq!(x_translate_key(0), Key::Unidentified);
    assert_eq!(x_translate_key(34), Key::Unidentified);
    assert_eq!(x_translate_key(255), Key::Unidentified);
}

#[test]
fn x11_key_table_is_repeatable() {
    for code in 0..=255u8 {
        assert_eq!(x_translate_key(code), x_translate_key(code));
    }
}

#[test]
fn x11_buttons() {
    assert_eq!(x_translate_button(1), Some(MouseButton::Left));
    assert_eq!(x_translate_button(2), Some(MouseButton::Middle));
    assert_eq!(x_translate_button(3), Some(MouseButton::Right));
    assert_eq!(x_translate_button(8), Some(MouseButton::Custom(0)));
    assert_eq!(x_translate_button(9), Some(MouseButton::Custom(1)));
    assert_eq!(x_translate_button(255), Some(MouseButton::Custom(247)));
}

#[test]
fn x11_wheel_numbers_are_no_buttons() {
    for detail in [0u8, 4, 5, 6, 7] {
        assert_eq!(x_translate_button(detail), None);
    }
}

#[test]
fn x11_wheel_steps() {
    assert_eq!(x_translate_wheel(4), Some(MouseWheelDirection::Up));
    assert_eq!(x_translate_wheel(5), Some(MouseWheelDirection::Down));
    assert_eq!(x_translate_wheel(1), None);
    assert_eq!(x_translate_wheel(6), None);
}

#[test]
fn wheel_direction_from_delta() {
    assert_eq!(MouseWheelDirection::from_delta(120), Some(MouseWheelDirection::Up));
    assert_eq!(MouseWheelDirection::from_delta(1), Some(MouseWheelDirection::Up));
    assert_eq!(MouseWheelDirection::from_delta(-120), Some(MouseWheelDirection::Down));
    assert_eq!(MouseWheelDirection::from_delta(i16::MIN), Some(MouseWheelDirection::Down));
    assert_eq!(MouseWheelDirection::from_delta(0), None);
}
