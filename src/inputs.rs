//! Neutral key, mouse button and wheel vocabulary.
use vstd::prelude::*;

verus! {

/// A key of the neutral vocabulary. Each named key carries the Win32
/// virtual-key code given by `win32_code`; `Unidentified` stands for every
/// native code that has no neutral counterpart.
#[derive(Debug, Clone, Copy, PartialEq, Eq, Hash, Structural)]
pub enum Key {
    BackSpace,
    Tab,
    Clear,
    Enter,
    Shift,
    Ctrl,
    Menu,
    Pause,
    Caps,
    Esc,
    Convert,
    NonConvert,
    Accept,
    ModeChange,
    Space,
    Prior,
    Next,
    End,
    Home,
    Left,
    Up,
    Right,
    Down,
    Select,
    Print,
    Execute,
    Snapshot,
    Insert,
    Delete,
    Help,
    Digit0,
    Digit1,
    Digit2,
    Digit3,
    Digit4,
    Digit5,
    Digit6,
    Digit7,
    Digit8,
    Digit9,
    A,
    B,
    C,
    D,
    E,
    F,
    G,
    H,
    I,
    J,
    K,
    L,
    M,
    N,
    O,
    P,
    Q,
    R,
    S,
    T,
    U,
    V,
    W,
    X,
    Y,
    Z,
    LWin,
    RWin,
    Apps,
    Sleep,
    Num0,
    Num1,
    Num2,
    Num3,
    Num4,
    Num5,
    Num6,
    Num7,
    Num8,
    Num9,
    Multiply,
    Add,
    Seperator,
    Subtract,
    Decimal,
    Divide,
    F1,
    F2,
    F3,
    F4,
    F5,
    F6,
    F7,
    F8,
    F9,
    F10,
    F11,
    F12,
    F13,
    F14,
    F15,
    F16,
    F17,
    F18,
    F19,
    F20,
    F21,
    F22,
    F23,
    F24,
    NumLock,
    Scroll,
    NumEqual,
    LShift,
    RShift,
    LCtrl,
    RCtrl,
    LAlt,
    RAlt,
    VolumeMute,
    VolumeDown,
    VolumeUp,
    MediaNext,
    MediaPause,
    MediaPrev,
    MediaStop,
    Semicolon,
    Plus,
    Comma,
    Minus,
    Period,
    Slash,
    Grave,
    Bracket,
    PageDown,
    PageUp,
    Unidentified,
}

/// The Win32 virtual-key code of a key (zero for `Unidentified`).
pub open spec fn win32_code(k: Key) -> u16 {
    match k {
        Key::BackSpace => 0x08,
        Key::Tab => 0x09,
        Key::Clear => 0x0C,
        Key::Enter => 0x0D,
        Key::Shift => 0x10,
        Key::Ctrl => 0x11,
        Key::Menu => 0x12,
        Key::Pause => 0x13,
        Key::Caps => 0x14,
        Key::Esc => 0x1B,
        Key::Convert => 0x1C,
        Key::NonConvert => 0x1D,
        Key::Accept => 0x1E,
        Key::ModeChange => 0x1F,
        Key::Space => 0x20,
        Key::Prior => 0x21,
        Key::Next => 0x22,
        Key::End => 0x23,
        Key::Home => 0x24,
        Key::Left => 0x25,
        Key::Up => 0x26,
        Key::Right => 0x27,
        Key::Down => 0x28,
        Key::Select => 0x29,
        Key::Print => 0x2A,
        Key::Execute => 0x2B,
        Key::Snapshot => 0x2C,
        Key::Insert => 0x2D,
        Key::Delete => 0x2E,
        Key::Help => 0x2F,
        Key::Digit0 => 0x30,
        Key::Digit1 => 0x31,
        Key::Digit2 => 0x32,
        Key::Digit3 => 0x33,
        Key::Digit4 => 0x34,
        Key::Digit5 => 0x35,
        Key::Digit6 => 0x36,
        Key::Digit7 => 0x37,
        Key::Digit8 => 0x38,
        Key::Digit9 => 0x39,
        Key::A => 0x41,
        Key::B => 0x42,
        Key::C => 0x43,
        Key::D => 0x44,
        Key::E => 0x45,
        Key::F => 0x46,
        Key::G => 0x47,
        Key::H => 0x48,
        Key::I => 0x49,
        Key::J => 0x4A,
        Key::K => 0x4B,
        Key::L => 0x4C,
        Key::M => 0x4D,
        Key::N => 0x4E,
        Key::O => 0x4F,
        Key::P => 0x50,
        Key::Q => 0x51,
        Key::R => 0x52,
        Key::S => 0x53,
        Key::T => 0x54,
        Key::U => 0x55,
        Key::V => 0x56,
        Key::W => 0x57,
        Key::X => 0x58,
        Key::Y => 0x59,
        Key::Z => 0x5A,
        Key::LWin => 0x5B,
        Key::RWin => 0x5C,
        Key::Apps => 0x5D,
        Key::Sleep => 0x5F,
        Key::Num0 => 0x60,
        Key::Num1 => 0x61,
        Key::Num2 => 0x62,
        Key::Num3 => 0x63,
        Key::Num4 => 0x64,
        Key::Num5 => 0x65,
        Key::Num6 => 0x66,
        Key::Num7 => 0x67,
        Key::Num8 => 0x68,
        Key::Num9 => 0x69,
        Key::Multiply => 0x6A,
        Key::Add => 0x6B,
        Key::Seperator => 0x6C,
        Key::Subtract => 0x6D,
        Key::Decimal => 0x6E,
        Key::Divide => 0x6F,
        Key::F1 => 0x70,
        Key::F2 => 0x71,
        Key::F3 => 0x72,
        Key::F4 => 0x73,
        Key::F5 => 0x74,
        Key::F6 => 0x75,
        Key::F7 => 0x76,
        Key::F8 => 0x77,
        Key::F9 => 0x78,
        Key::F10 => 0x79,
        Key::F11 => 0x7A,
        Key::F12 => 0x7B,
        Key::F13 => 0x7C,
        Key::F14 => 0x7D,
        Key::F15 => 0x7E,
        Key::F16 => 0x7F,
        Key::F17 => 0x80,
        Key::F18 => 0x81,
        Key::F19 => 0x82,
        Key::F20 => 0x83,
        Key::F21 => 0x84,
        Key::F22 => 0x85,
        Key::F23 => 0x86,
        Key::F24 => 0x87,
        Key::NumLock => 0x90,
        Key::Scroll => 0x91,
        Key::NumEqual => 0x92,
        Key::LShift => 0xA0,
        Key::RShift => 0xA1,
        Key::LCtrl => 0xA2,
        Key::RCtrl => 0xA3,
        Key::LAlt => 0xA4,
        Key::RAlt => 0xA5,
        Key::VolumeMute => 0xAD,
        Key::VolumeDown => 0xAE,
        Key::VolumeUp => 0xAF,
        Key::MediaNext => 0xB0,
        Key::MediaPause => 0xB1,
        Key::MediaPrev => 0xB2,
        Key::MediaStop => 0xB3,
        Key::Semicolon => 0xBA,
        Key::Plus => 0xBB,
        Key::Comma => 0xBC,
        Key::Minus => 0xBD,
        Key::Period => 0xBE,
        Key::Slash => 0xBF,
        Key::Grave => 0xC0,
        Key::Bracket => 0xE2,
        Key::PageDown => 0xE3,
        Key::PageUp => 0xE4,
        Key::Unidentified => 0,
    }
}

/// The X11 keycode of a key on a standard PC keyboard, where it has one.
pub open spec fn x11_code(k: Key) -> Option<u8> {
    match k {
        Key::BackSpace => Some(22),
        Key::Tab => Some(23),
        Key::Enter => Some(36),
        Key::Pause => Some(127),
        Key::Caps => Some(66),
        Key::Esc => Some(9),
        Key::Convert => Some(100),
        Key::NonConvert => Some(102),
        Key::Space => Some(65),
        Key::Prior => Some(112),
        Key::Next => Some(117),
        Key::End => Some(115),
        Key::Home => Some(110),
        Key::Left => Some(113),
        Key::Up => Some(111),
        Key::Right => Some(114),
        Key::Down => Some(116),
        Key::Snapshot => Some(107),
        Key::Insert => Some(118),
        Key::Delete => Some(119),
        Key::Help => Some(146),
        Key::Digit0 => Some(19),
        Key::Digit1 => Some(10),
        Key::Digit2 => Some(11),
        Key::Digit3 => Some(12),
        Key::Digit4 => Some(13),
        Key::Digit5 => Some(14),
        Key::Digit6 => Some(15),
        Key::Digit7 => Some(16),
        Key::Digit8 => Some(17),
        Key::Digit9 => Some(18),
        Key::A => Some(38),
        Key::B => Some(56),
        Key::C => Some(54),
        Key::D => Some(40),
        Key::E => Some(26),
        Key::F => Some(41),
        Key::G => Some(42),
        Key::H => Some(43),
        Key::I => Some(31),
        Key::J => Some(44),
        Key::K => Some(45),
        Key::L => Some(46),
        Key::M => Some(58),
        Key::N => Some(57),
        Key::O => Some(32),
        Key::P => Some(33),
        Key::Q => Some(24),
        Key::R => Some(27),
        Key::S => Some(39),
        Key::T => Some(28),
        Key::U => Some(30),
        Key::V => Some(55),
        Key::W => Some(25),
        Key::X => Some(53),
        Key::Y => Some(29),
        Key::Z => Some(52),
        Key::LWin => Some(133),
        Key::RWin => Some(134),
        Key::Apps => Some(135),
        Key::Sleep => Some(150),
        Key::Num0 => Some(90),
        Key::Num1 => Some(87),
        Key::Num2 => Some(88),
        Key::Num3 => Some(89),
        Key::Num4 => Some(83),
        Key::Num5 => Some(84),
        Key::Num6 => Some(85),
        Key::Num7 => Some(79),
        Key::Num8 => Some(80),
        Key::Num9 => Some(81),
        Key::Multiply => Some(63),
        Key::Add => Some(86),
        Key::Seperator => Some(129),
        Key::Subtract => Some(82),
        Key::Decimal => Some(91),
        Key::Divide => Some(106),
        Key::F1 => Some(67),
        Key::F2 => Some(68),
        Key::F3 => Some(69),
        Key::F4 => Some(70),
        Key::F5 => Some(71),
        Key::F6 => Some(72),
        Key::F7 => Some(73),
        Key::F8 => Some(74),
        Key::F9 => Some(75),
        Key::F10 => Some(76),
        Key::F11 => Some(95),
        Key::F12 => Some(96),
        Key::F13 => Some(191),
        Key::F14 => Some(192),
        Key::F15 => Some(193),
        Key::F16 => Some(194),
        Key::F17 => Some(195),
        Key::F18 => Some(196),
        Key::F19 => Some(197),
        Key::F20 => Some(198),
        Key::F21 => Some(199),
        Key::F22 => Some(200),
        Key::F23 => Some(201),
        Key::F24 => Some(202),
        Key::NumLock => Some(77),
        Key::Scroll => Some(78),
        Key::NumEqual => Some(125),
        Key::LShift => Some(50),
        Key::RShift => Some(62),
        Key::LCtrl => Some(37),
        Key::RCtrl => Some(105),
        Key::LAlt => Some(64),
        Key::RAlt => Some(108),
        Key::VolumeMute => Some(121),
        Key::VolumeDown => Some(122),
        Key::VolumeUp => Some(123),
        Key::MediaNext => Some(171),
        Key::MediaPause => Some(172),
        Key::MediaPrev => Some(173),
        Key::MediaStop => Some(174),
        Key::Semicolon => Some(47),
        Key::Plus => Some(21),
        Key::Comma => Some(59),
        Key::Minus => Some(20),
        Key::Period => Some(60),
        Key::Slash => Some(61),
        Key::Grave => Some(49),
        Key::Bracket => Some(94),
        _ => None,
    }
}

impl Key {
    /// The Win32 virtual-key code of this key.
    pub fn win32_code(&self) -> (r: u16)
        ensures
            r == win32_code(*self),
    {
        match self {
            Key::BackSpace => 0x08,
            Key::Tab => 0x09,
            Key::Clear => 0x0C,
            Key::Enter => 0x0D,
            Key::Shift => 0x10,
            Key::Ctrl => 0x11,
            Key::Menu => 0x12,
            Key::Pause => 0x13,
            Key::Caps => 0x14,
            Key::Esc => 0x1B,
            Key::Convert => 0x1C,
            Key::NonConvert => 0x1D,
            Key::Accept => 0x1E,
            Key::ModeChange => 0x1F,
            Key::Space => 0x20,
            Key::Prior => 0x21,
            Key::Next => 0x22,
            Key::End => 0x23,
            Key::Home => 0x24,
            Key::Left => 0x25,
            Key::Up => 0x26,
            Key::Right => 0x27,
            Key::Down => 0x28,
            Key::Select => 0x29,
            Key::Print => 0x2A,
            Key::Execute => 0x2B,
            Key::Snapshot => 0x2C,
            Key::Insert => 0x2D,
            Key::Delete => 0x2E,
            Key::Help => 0x2F,
            Key::Digit0 => 0x30,
            Key::Digit1 => 0x31,
            Key::Digit2 => 0x32,
            Key::Digit3 => 0x33,
            Key::Digit4 => 0x34,
            Key::Digit5 => 0x35,
            Key::Digit6 => 0x36,
            Key::Digit7 => 0x37,
            Key::Digit8 => 0x38,
            Key::Digit9 => 0x39,
            Key::A => 0x41,
            Key::B => 0x42,
            Key::C => 0x43,
            Key::D => 0x44,
            Key::E => 0x45,
            Key::F => 0x46,
            Key::G => 0x47,
            Key::H => 0x48,
            Key::I => 0x49,
            Key::J => 0x4A,
            Key::K => 0x4B,
            Key::L => 0x4C,
            Key::M => 0x4D,
            Key::N => 0x4E,
            Key::O => 0x4F,
            Key::P => 0x50,
            Key::Q => 0x51,
            Key::R => 0x52,
            Key::S => 0x53,
            Key::T => 0x54,
            Key::U => 0x55,
            Key::V => 0x56,
            Key::W => 0x57,
            Key::X => 0x58,
            Key::Y => 0x59,
            Key::Z => 0x5A,
            Key::LWin => 0x5B,
            Key::RWin => 0x5C,
            Key::Apps => 0x5D,
            Key::Sleep => 0x5F,
            Key::Num0 => 0x60,
            Key::Num1 => 0x61,
            Key::Num2 => 0x62,
            Key::Num3 => 0x63,
            Key::Num4 => 0x64,
            Key::Num5 => 0x65,
            Key::Num6 => 0x66,
            Key::Num7 => 0x67,
            Key::Num8 => 0x68,
            Key::Num9 => 0x69,
            Key::Multiply => 0x6A,
            Key::Add => 0x6B,
            Key::Seperator => 0x6C,
            Key::Subtract => 0x6D,
            Key::Decimal => 0x6E,
            Key::Divide => 0x6F,
            Key::F1 => 0x70,
            Key::F2 => 0x71,
            Key::F3 => 0x72,
            Key::F4 => 0x73,
            Key::F5 => 0x74,
            Key::F6 => 0x75,
            Key::F7 => 0x76,
            Key::F8 => 0x77,
            Key::F9 => 0x78,
            Key::F10 => 0x79,
            Key::F11 => 0x7A,
            Key::F12 => 0x7B,
            Key::F13 => 0x7C,
            Key::F14 => 0x7D,
            Key::F15 => 0x7E,
            Key::F16 => 0x7F,
            Key::F17 => 0x80,
            Key::F18 => 0x81,
            Key::F19 => 0x82,
            Key::F20 => 0x83,
            Key::F21 => 0x84,
            Key::F22 => 0x85,
            Key::F23 => 0x86,
            Key::F24 => 0x87,
            Key::NumLock => 0x90,
            Key::Scroll => 0x91,
            Key::NumEqual => 0x92,
            Key::LShift => 0xA0,
            Key::RShift => 0xA1,
            Key::LCtrl => 0xA2,
            Key::RCtrl => 0xA3,
            Key::LAlt => 0xA4,
            Key::RAlt => 0xA5,
            Key::VolumeMute => 0xAD,
            Key::VolumeDown => 0xAE,
            Key::VolumeUp => 0xAF,
            Key::MediaNext => 0xB0,
            Key::MediaPause => 0xB1,
            Key::MediaPrev => 0xB2,
            Key::MediaStop => 0xB3,
            Key::Semicolon => 0xBA,
            Key::Plus => 0xBB,
            Key::Comma => 0xBC,
            Key::Minus => 0xBD,
            Key::Period => 0xBE,
            Key::Slash => 0xBF,
            Key::Grave => 0xC0,
            Key::Bracket => 0xE2,
            Key::PageDown => 0xE3,
            Key::PageUp => 0xE4,
            Key::Unidentified => 0,
        }
    }

    /// Translates a Win32 virtual-key code into the neutral vocabulary.
    pub fn from_win32_key(code: u16) -> (r: Key)
        ensures
            r == win32_key(code),
    {
        proof {
            lemma_win32_codes_distinct();
        }
        let r = match code {
            0x08 => Key::BackSpace,
            0x09 => Key::Tab,
            0x0C => Key::Clear,
            0x0D => Key::Enter,
            0x10 => Key::Shift,
            0x11 => Key::Ctrl,
            0x12 => Key::Menu,
            0x13 => Key::Pause,
            0x14 => Key::Caps,
            0x1B => Key::Esc,
            0x1C => Key::Convert,
            0x1D => Key::NonConvert,
            0x1E => Key::Accept,
            0x1F => Key::ModeChange,
            0x20 => Key::Space,
            0x21 => Key::Prior,
            0x22 => Key::Next,
            0x23 => Key::End,
            0x24 => Key::Home,
            0x25 => Key::Left,
            0x26 => Key::Up,
            0x27 => Key::Right,
            0x28 => Key::Down,
            0x29 => Key::Select,
            0x2A => Key::Print,
            0x2B => Key::Execute,
            0x2C => Key::Snapshot,
            0x2D => Key::Insert,
            0x2E => Key::Delete,
            0x2F => Key::Help,
            0x30 => Key::Digit0,
            0x31 => Key::Digit1,
            0x32 => Key::Digit2,
            0x33 => Key::Digit3,
            0x34 => Key::Digit4,
            0x35 => Key::Digit5,
            0x36 => Key::Digit6,
            0x37 => Key::Digit7,
            0x38 => Key::Digit8,
            0x39 => Key::Digit9,
            0x41 => Key::A,
            0x42 => Key::B,
            0x43 => Key::C,
            0x44 => Key::D,
            0x45 => Key::E,
            0x46 => Key::F,
            0x47 => Key::G,
            0x48 => Key::H,
            0x49 => Key::I,
            0x4A => Key::J,
            0x4B => Key::K,
            0x4C => Key::L,
            0x4D => Key::M,
            0x4E => Key::N,
            0x4F => Key::O,
            0x50 => Key::P,
            0x51 => Key::Q,
            0x52 => Key::R,
            0x53 => Key::S,
            0x54 => Key::T,
            0x55 => Key::U,
            0x56 => Key::V,
            0x57 => Key::W,
            0x58 => Key::X,
            0x59 => Key::Y,
            0x5A => Key::Z,
            0x5B => Key::LWin,
            0x5C => Key::RWin,
            0x5D => Key::Apps,
            0x5F => Key::Sleep,
            0x60 => Key::Num0,
            0x61 => Key::Num1,
            0x62 => Key::Num2,
            0x63 => Key::Num3,
            0x64 => Key::Num4,
            0x65 => Key::Num5,
            0x66 => Key::Num6,
            0x67 => Key::Num7,
            0x68 => Key::Num8,
            0x69 => Key::Num9,
            0x6A => Key::Multiply,
            0x6B => Key::Add,
            0x6C => Key::Seperator,
            0x6D => Key::Subtract,
            0x6E => Key::Decimal,
            0x6F => Key::Divide,
            0x70 => Key::F1,
            0x71 => Key::F2,
            0x72 => Key::F3,
            0x73 => Key::F4,
            0x74 => Key::F5,
            0x75 => Key::F6,
            0x76 => Key::F7,
            0x77 => Key::F8,
            0x78 => Key::F9,
            0x79 => Key::F10,
            0x7A => Key::F11,
            0x7B => Key::F12,
            0x7C => Key::F13,
            0x7D => Key::F14,
            0x7E => Key::F15,
            0x7F => Key::F16,
            0x80 => Key::F17,
            0x81 => Key::F18,
            0x82 => Key::F19,
            0x83 => Key::F20,
            0x84 => Key::F21,
            0x85 => Key::F22,
            0x86 => Key::F23,
            0x87 => Key::F24,
            0x90 => Key::NumLock,
            0x91 => Key::Scroll,
            0x92 => Key::NumEqual,
            0xA0 => Key::LShift,
            0xA1 => Key::RShift,
            0xA2 => Key::LCtrl,
            0xA3 => Key::RCtrl,
            0xA4 => Key::LAlt,
            0xA5 => Key::RAlt,
            0xAD => Key::VolumeMute,
            0xAE => Key::VolumeDown,
            0xAF => Key::VolumeUp,
            0xB0 => Key::MediaNext,
            0xB1 => Key::MediaPause,
            0xB2 => Key::MediaPrev,
            0xB3 => Key::MediaStop,
            0xBA => Key::Semicolon,
            0xBB => Key::Plus,
            0xBC => Key::Comma,
            0xBD => Key::Minus,
            0xBE => Key::Period,
            0xBF => Key::Slash,
            0xC0 => Key::Grave,
            0xE2 => Key::Bracket,
            0xE3 => Key::PageDown,
            0xE4 => Key::PageUp,
            _ => Key::Unidentified,
        };
        assert(r != Key::Unidentified ==> win32_code(r) == code);
        r
    }
}

/// Translates an X11 keycode into the neutral vocabulary.
pub fn x_translate_key(code: u8) -> (r: Key)
    ensures
        r == x11_key(code),
{
    proof {
        lemma_x11_codes_distinct();
    }
    let r = match code {
        9 => Key::Esc,
        10 => Key::Digit1,
        11 => Key::Digit2,
        12 => Key::Digit3,
        13 => Key::Digit4,
        14 => Key::Digit5,
        15 => Key::Digit6,
        16 => Key::Digit7,
        17 => Key::Digit8,
        18 => Key::Digit9,
        19 => Key::Digit0,
        20 => Key::Minus,
        21 => Key::Plus,
        22 => Key::BackSpace,
        23 => Key::Tab,
        24 => Key::Q,
        25 => Key::W,
        26 => Key::E,
        27 => Key::R,
        28 => Key::T,
        29 => Key::Y,
        30 => Key::U,
        31 => Key::I,
        32 => Key::O,
        33 => Key::P,
        36 => Key::Enter,
        37 => Key::LCtrl,
        38 => Key::A,
        39 => Key::S,
        40 => Key::D,
        41 => Key::F,
        42 => Key::G,
        43 => Key::H,
        44 => Key::J,
        45 => Key::K,
        46 => Key::L,
        47 => Key::Semicolon,
        49 => Key::Grave,
        50 => Key::LShift,
        52 => Key::Z,
        53 => Key::X,
        54 => Key::C,
        55 => Key::V,
        56 => Key::B,
        57 => Key::N,
        58 => Key::M,
        59 => Key::Comma,
        60 => Key::Period,
        61 => Key::Slash,
        62 => Key::RShift,
        63 => Key::Multiply,
        64 => Key::LAlt,
        65 => Key::Space,
        66 => Key::Caps,
        67 => Key::F1,
        68 => Key::F2,
        69 => Key::F3,
        70 => Key::F4,
        71 => Key::F5,
        72 => Key::F6,
        73 => Key::F7,
        74 => Key::F8,
        75 => Key::F9,
        76 => Key::F10,
        77 => Key::NumLock,
        78 => Key::Scroll,
        79 => Key::Num7,
        80 => Key::Num8,
        81 => Key::Num9,
        82 => Key::Subtract,
        83 => Key::Num4,
        84 => Key::Num5,
        85 => Key::Num6,
        86 => Key::Add,
        87 => Key::Num1,
        88 => Key::Num2,
        89 => Key::Num3,
        90 => Key::Num0,
        91 => Key::Decimal,
        94 => Key::Bracket,
        95 => Key::F11,
        96 => Key::F12,
        100 => Key::Convert,
        102 => Key::NonConvert,
        105 => Key::RCtrl,
        106 => Key::Divide,
        107 => Key::Snapshot,
        108 => Key::RAlt,
        110 => Key::Home,
        111 => Key::Up,
        112 => Key::Prior,
        113 => Key::Left,
        114 => Key::Right,
        115 => Key::End,
        116 => Key::Down,
        117 => Key::Next,
        118 => Key::Insert,
        119 => Key::Delete,
        121 => Key::VolumeMute,
        122 => Key::VolumeDown,
        123 => Key::VolumeUp,
        125 => Key::NumEqual,
        127 => Key::Pause,
        129 => Key::Seperator,
        133 => Key::LWin,
        134 => Key::RWin,
        135 => Key::Apps,
        146 => Key::Help,
        150 => Key::Sleep,
        171 => Key::MediaNext,
        172 => Key::MediaPause,
        173 => Key::MediaPrev,
        174 => Key::MediaStop,
        191 => Key::F13,
        192 => Key::F14,
        193 => Key::F15,
        194 => Key::F16,
        195 => Key::F17,
        196 => Key::F18,
        197 => Key::F19,
        198 => Key::F20,
        199 => Key::F21,
        200 => Key::F22,
        201 => Key::F23,
        202 => Key::F24,
        _ => Key::Unidentified,
    };
    assert(r != Key::Unidentified ==> x11_code(r) == Some(code));
    r
}

/// The neutral key whose Win32 virtual-key code is `code`; `Unidentified`
/// when no named key carries that code.
pub open spec fn win32_key(code: u16) -> Key {
    if exists|k: Key| k != Key::Unidentified && win32_code(k) == code {
        choose|k: Key| k != Key::Unidentified && win32_code(k) == code
    } else {
        Key::Unidentified
    }
}

/// The neutral key whose X11 keycode is `code`; `Unidentified` when no key
/// carries that keycode.
pub open spec fn x11_key(code: u8) -> Key {
    if exists|k: Key| x11_code(k) == Some(code) {
        choose|k: Key| x11_code(k) == Some(code)
    } else {
        Key::Unidentified
    }
}

/// No two named keys share a Win32 virtual-key code.
pub proof fn lemma_win32_codes_distinct()
    ensures
        forall|a: Key, b: Key|
            a != Key::Unidentified && b != Key::Unidentified && #[trigger] win32_code(a)
                == #[trigger] win32_code(b) ==> a == b,
{
}

/// No two keys share an X11 keycode.
pub proof fn lemma_x11_codes_distinct()
    ensures
        forall|a: Key, b: Key|
            x11_code(a) is Some && #[trigger] x11_code(a) == #[trigger] x11_code(b) ==> a == b,
{
}

/// Both translation tables are exact inverses of the key codes: a named key's
/// native code translates back to that key, and a native code that no key
/// carries translates to `Unidentified`.
pub proof fn lemma_key_tables_round_trip(k: Key, vk: u16, keycode: u8)
    ensures
        k != Key::Unidentified ==> win32_key(win32_code(k)) == k,
        x11_code(k) matches Some(c) ==> x11_key(c) == k,
        (forall|j: Key| j != Key::Unidentified ==> win32_code(j) != vk) ==> win32_key(vk)
            == Key::Unidentified,
        (forall|j: Key| x11_code(j) != Some(keycode)) ==> x11_key(keycode) == Key::Unidentified,
{
    lemma_win32_codes_distinct();
    lemma_x11_codes_distinct();
}

/// A mouse button: the three named ones, or a caller-defined code.
#[derive(Debug, Clone, Copy, PartialEq, Eq, Structural)]
pub enum MouseButton {
    Left,
    Right,
    Middle,
    /// A caller-defined button; codes up to 252 have an ordinal of their own.
    Custom(u8),
}

/// The ordinal of a button, before reduction to eight bits.
pub open spec fn button_ordinal(b: MouseButton) -> int {
    match b {
        MouseButton::Left => 0,
        MouseButton::Right => 1,
        MouseButton::Middle => 2,
        MouseButton::Custom(c) => c + 3,
    }
}

impl MouseButton {
    /// The ordinal of the button, reduced modulo 256.
    pub fn as_u8(&self) -> (r: u8)
        ensures
            r as int == button_ordinal(*self) % 256,
    {
        match self {
            MouseButton::Left => 0,
            MouseButton::Right => 1,
            MouseButton::Middle => 2,
            MouseButton::Custom(x) => x.wrapping_add(3),
        }
    }
}

/// The ordinal of a button that has an eight-bit ordinal of its own: the three
/// named buttons and custom codes up to 252.
pub open spec fn distinct_ordinal(b: MouseButton) -> bool {
    match b {
        MouseButton::Custom(c) => c <= 252,
        _ => true,
    }
}

/// `as_u8` tells apart the named buttons and the custom codes up to 252; the
/// encoding wraps at the eight-bit boundary, so custom code 253 shares the
/// ordinal of `Left`.
pub proof fn lemma_button_ordinals_distinct(a: MouseButton, b: MouseButton)
    ensures
        distinct_ordinal(a) && distinct_ordinal(b) && button_ordinal(a) % 256 == button_ordinal(b)
            % 256 ==> a == b,
        button_ordinal(MouseButton::Custom(253)) % 256 == button_ordinal(MouseButton::Left) % 256,
{
}

/// The button that an X11 pointer button number names. Numbers 4 to 7 are
/// wheel steps rather than buttons and 0 names no button; the extra buttons
/// from 8 on become custom codes counted from 0.
pub open spec fn x11_button(detail: u8) -> Option<MouseButton> {
    if detail == 1 {
        Some(MouseButton::Left)
    } else if detail == 2 {
        Some(MouseButton::Middle)
    } else if detail == 3 {
        Some(MouseButton::Right)
    } else if detail >= 8 {
        Some(MouseButton::Custom((detail - 8) as u8))
    } else {
        None
    }
}

/// The vertical wheel direction of an X11 pointer button number: 4 is a step
/// up and 5 a step down.
pub open spec fn x11_wheel(detail: u8) -> Option<MouseWheelDirection> {
    if detail == 4 {
        Some(MouseWheelDirection::Up)
    } else if detail == 5 {
        Some(MouseWheelDirection::Down)
    } else {
        None
    }
}

/// Translates an X11 pointer button number into a button, where it names one.
pub fn x_translate_button(detail: u8) -> (r: Option<MouseButton>)
    ensures
        r == x11_button(detail),
{
    match detail {
        1 => Some(MouseButton::Left),
        2 => Some(MouseButton::Middle),
        3 => Some(MouseButton::Right),
        4..=7 | 0 => None,
        _ => Some(MouseButton::Custom(detail - 8)),
    }
}

/// Translates an X11 pointer button number into a vertical wheel step, where
/// it is one.
pub fn x_translate_wheel(detail: u8) -> (r: Option<MouseWheelDirection>)
    ensures
        r == x11_wheel(detail),
{
    match detail {
        4 => Some(MouseWheelDirection::Up),
        5 => Some(MouseWheelDirection::Down),
        _ => None,
    }
}

/// The direction of a vertical wheel step.
#[derive(Debug, Clone, Copy, PartialEq, Eq, Structural)]
pub enum MouseWheelDirection {
    Up,
    Down,
}

impl MouseWheelDirection {
    /// Flattens a wheel delta to a direction; a delta of zero has none.
    pub fn from_delta(delta: i16) -> (r: Option<MouseWheelDirection>)
        ensures
            delta > 0 ==> r == Some(MouseWheelDirection::Up),
            delta < 0 ==> r == Some(MouseWheelDirection::Down),
            delta == 0 ==> r is None,
    {
        if delta < 0 {
            Some(MouseWheelDirection::Down)
        } else if delta > 0 {
            Some(MouseWheelDirection::Up)
        } else {
            None
        }
    }
}

} // verus!
