//! What a window reports of keyboard, mouse and size, as the engine keeps
//! it.

use vstd::prelude::*;

verus! {

/// Which modifier keys are held.
#[derive(Default, Debug, Clone, Copy, Hash, PartialEq, Eq, Structural)]
pub struct ModifierState {
    pub shift: bool,
    pub ctrl: bool,
    pub alt: bool,
    pub logo: bool,
}

/// The window has a new size.
#[derive(Debug, Clone, Copy, Hash, PartialEq, Eq, Structural)]
pub struct ResizeEvent {
    pub width: usize,
    pub height: usize,
}

/// A mouse button went down or up.
#[derive(Debug, Clone, Copy, Hash, PartialEq, Eq, Structural)]
pub struct ClickEvent {
    pub press: PressState,
    pub button: MouseButton,
}

/// A key went down or up.
#[derive(Debug, Clone, Copy, Hash, PartialEq, Eq, Structural)]
pub struct KeyEvent {
    pub press: PressState,
    pub keycode: VirtualKeyCode,
}

#[derive(Debug, Clone, Copy, Hash, PartialEq, Eq, Structural)]
pub enum MouseButton {
    Left,
    Middle,
    Right,
}

#[derive(Debug, Clone, Copy, Hash, PartialEq, Eq, Structural)]
pub enum PressState {
    Up,
    Down,
}

/// The keys of a keyboard, in the order in which the windowing layer
/// numbers them.
#[derive(Debug, Clone, Copy, Hash, PartialEq, Eq, Structural)]
pub enum VirtualKeyCode {
    Key1,
    Key2,
    Key3,
    Key4,
    Key5,
    Key6,
    Key7,
    Key8,
    Key9,
    Key0,
    A,
    B,
    C,
    D,
    E,
    F,
    G,
    H,
    I,
    J,
    K,
    L,
    M,
    N,
    O,
    P,
    Q,
    R,
    S,
    T,
    U,
    V,
    W,
    X,
    Y,
    Z,
    Escape,
    F1,
    F2,
    F3,
    F4,
    F5,
    F6,
    F7,
    F8,
    F9,
    F10,
    F11,
    F12,
    F13,
    F14,
    F15,
    F16,
    F17,
    F18,
    F19,
    F20,
    F21,
    F22,
    F23,
    F24,
    Snapshot,
    Scroll,
    Pause,
    Insert,
    Home,
    Delete,
    End,
    PageDown,
    PageUp,
    Left,
    Up,
    Right,
    Down,
    Back,
    Return,
    Space,
    Compose,
    Caret,
    Numlock,
    Numpad0,
    Numpad1,
    Numpad2,
    Numpad3,
    Numpad4,
    Numpad5,
    Numpad6,
    Numpad7,
    Numpad8,
    Numpad9,
    NumpadAdd,
    NumpadDivide,
    NumpadDecimal,
    NumpadComma,
    NumpadEnter,
    NumpadEquals,
    NumpadMultiply,
    NumpadSubtract,
    AbntC1,
    AbntC2,
    Apostrophe,
    Apps,
    Asterisk,
    At,
    Ax,
    Backslash,
    Calculator,
    Capital,
    Colon,
    Comma,
    Convert,
    Equals,
    Grave,
    Kana,
    Kanji,
    LAlt,
    LBracket,
    LControl,
    LShift,
    LWin,
    Mail,
    MediaSelect,
    MediaStop,
    Minus,
    Mute,
    MyComputer,
    NavigateForward,
    NavigateBackward,
    NextTrack,
    NoConvert,
    OEM102,
    Period,
    PlayPause,
    Plus,
    Power,
    PrevTrack,
    RAlt,
    RBracket,
    RControl,
    RShift,
    RWin,
    Semicolon,
    Slash,
    Sleep,
    Stop,
    Sysrq,
    Tab,
    Underline,
    Unlabeled,
    VolumeDown,
    VolumeUp,
    Wake,
    WebBack,
    WebFavorites,
    WebForward,
    WebHome,
    WebRefresh,
    WebSearch,
    WebStop,
    Yen,
    Copy,
    Paste,
    Cut,
}

/// How many keys [`VirtualKeyCode`] names.
pub const VIRTUAL_KEY_COUNT: u32 = 163;

impl VirtualKeyCode {
    /// The number of this key: its place in the list of keys, from zero.
    pub open spec fn spec_code(self) -> u32 {
        match self {
            VirtualKeyCode::Key1 => 0,
            VirtualKeyCode::Key2 => 1,
            VirtualKeyCode::Key3 => 2,
            VirtualKeyCode::Key4 => 3,
            VirtualKeyCode::Key5 => 4,
            VirtualKeyCode::Key6 => 5,
            VirtualKeyCode::Key7 => 6,
            VirtualKeyCode::Key8 => 7,
            VirtualKeyCode::Key9 => 8,
            VirtualKeyCode::Key0 => 9,
            VirtualKeyCode::A => 10,
            VirtualKeyCode::B => 11,
            VirtualKeyCode::C => 12,
            VirtualKeyCode::D => 13,
            VirtualKeyCode::E => 14,
            VirtualKeyCode::F => 15,
            VirtualKeyCode::G => 16,
            VirtualKeyCode::H => 17,
            VirtualKeyCode::I => 18,
            VirtualKeyCode::J => 19,
            VirtualKeyCode::K => 20,
            VirtualKeyCode::L => 21,
            VirtualKeyCode::M => 22,
            VirtualKeyCode::N => 23,
            VirtualKeyCode::O => 24,
            VirtualKeyCode::P => 25,
            VirtualKeyCode::Q => 26,
            VirtualKeyCode::R => 27,
            VirtualKeyCode::S => 28,
            VirtualKeyCode::T => 29,
            VirtualKeyCode::U => 30,
            VirtualKeyCode::V => 31,
            VirtualKeyCode::W => 32,
            VirtualKeyCode::X => 33,
            VirtualKeyCode::Y => 34,
            VirtualKeyCode::Z => 35,
            VirtualKeyCode::Escape => 36,
            VirtualKeyCode::F1 => 37,
            VirtualKeyCode::F2 => 38,
            VirtualKeyCode::F3 => 39,
            VirtualKeyCode::F4 => 40,
            VirtualKeyCode::F5 => 41,
            VirtualKeyCode::F6 => 42,
            VirtualKeyCode::F7 => 43,
            VirtualKeyCode::F8 => 44,
            VirtualKeyCode::F9 => 45,
            VirtualKeyCode::F10 => 46,
            VirtualKeyCode::F11 => 47,
            VirtualKeyCode::F12 => 48,
            VirtualKeyCode::F13 => 49,
            VirtualKeyCode::F14 => 50,
            VirtualKeyCode::F15 => 51,
            VirtualKeyCode::F16 => 52,
            VirtualKeyCode::F17 => 53,
            VirtualKeyCode::F18 => 54,
            VirtualKeyCode::F19 => 55,
            VirtualKeyCode::F20 => 56,
            VirtualKeyCode::F21 => 57,
            VirtualKeyCode::F22 => 58,
            VirtualKeyCode::F23 => 59,
            VirtualKeyCode::F24 => 60,
            VirtualKeyCode::Snapshot => 61,
            VirtualKeyCode::Scroll => 62,
            VirtualKeyCode::Pause => 63,
            VirtualKeyCode::Insert => 64,
            VirtualKeyCode::Home => 65,
            VirtualKeyCode::Delete => 66,
            VirtualKeyCode::End => 67,
            VirtualKeyCode::PageDown => 68,
            VirtualKeyCode::PageUp => 69,
            VirtualKeyCode::Left => 70,
            VirtualKeyCode::Up => 71,
            VirtualKeyCode::Right => 72,
            VirtualKeyCode::Down => 73,
            VirtualKeyCode::Back => 74,
            VirtualKeyCode::Return => 75,
            VirtualKeyCode::Space => 76,
            VirtualKeyCode::Compose => 77,
            VirtualKeyCode::Caret => 78,
            VirtualKeyCode::Numlock => 79,
            VirtualKeyCode::Numpad0 => 80,
            VirtualKeyCode::Numpad1 => 81,
            VirtualKeyCode::Numpad2 => 82,
            VirtualKeyCode::Numpad3 => 83,
            VirtualKeyCode::Numpad4 => 84,
            VirtualKeyCode::Numpad5 => 85,
            VirtualKeyCode::Numpad6 => 86,
            VirtualKeyCode::Numpad7 => 87,
            VirtualKeyCode::Numpad8 => 88,
            VirtualKeyCode::Numpad9 => 89,
            VirtualKeyCode::NumpadAdd => 90,
            VirtualKeyCode::NumpadDivide => 91,
            VirtualKeyCode::NumpadDecimal => 92,
            VirtualKeyCode::NumpadComma => 93,
            VirtualKeyCode::NumpadEnter => 94,
            VirtualKeyCode::NumpadEquals => 95,
            VirtualKeyCode::NumpadMultiply => 96,
            VirtualKeyCode::NumpadSubtract => 97,
            VirtualKeyCode::AbntC1 => 98,
            VirtualKeyCode::AbntC2 => 99,
            VirtualKeyCode::Apostrophe => 100,
            VirtualKeyCode::Apps => 101,
            VirtualKeyCode::Asterisk => 102,
            VirtualKeyCode::At => 103,
            VirtualKeyCode::Ax => 104,
            VirtualKeyCode::Backslash => 105,
            VirtualKeyCode::Calculator => 106,
            VirtualKeyCode::Capital => 107,
            VirtualKeyCode::Colon => 108,
            VirtualKeyCode::Comma => 109,
            VirtualKeyCode::Convert => 110,
            VirtualKeyCode::Equals => 111,
            VirtualKeyCode::Grave => 112,
            VirtualKeyCode::Kana => 113,
            VirtualKeyCode::Kanji => 114,
            VirtualKeyCode::LAlt => 115,
            VirtualKeyCode::LBracket => 116,
            VirtualKeyCode::LControl => 117,
            VirtualKeyCode::LShift => 118,
            VirtualKeyCode::LWin => 119,
            VirtualKeyCode::Mail => 120,
            VirtualKeyCode::MediaSelect => 121,
            VirtualKeyCode::MediaStop => 122,
            VirtualKeyCode::Minus => 123,
            VirtualKeyCode::Mute => 124,
            VirtualKeyCode::MyComputer => 125,
            VirtualKeyCode::NavigateForward => 126,
            VirtualKeyCode::NavigateBackward => 127,
            VirtualKeyCode::NextTrack => 128,
            VirtualKeyCode::NoConvert => 129,
            VirtualKeyCode::OEM102 => 130,
            VirtualKeyCode::Period => 131,
            VirtualKeyCode::PlayPause => 132,
            VirtualKeyCode::Plus => 133,
            VirtualKeyCode::Power => 134,
            VirtualKeyCode::PrevTrack => 135,
            VirtualKeyCode::RAlt => 136,
            VirtualKeyCode::RBracket => 137,
            VirtualKeyCode::RControl => 138,
            VirtualKeyCode::RShift => 139,
            VirtualKeyCode::RWin => 140,
            VirtualKeyCode::Semicolon => 141,
            VirtualKeyCode::Slash => 142,
            VirtualKeyCode::Sleep => 143,
            VirtualKeyCode::Stop => 144,
            VirtualKeyCode::Sysrq => 145,
            VirtualKeyCode::Tab => 146,
            VirtualKeyCode::Underline => 147,
            VirtualKeyCode::Unlabeled => 148,
            VirtualKeyCode::VolumeDown => 149,
            VirtualKeyCode::VolumeUp => 150,
            VirtualKeyCode::Wake => 151,
            VirtualKeyCode::WebBack => 152,
            VirtualKeyCode::WebFavorites => 153,
            VirtualKeyCode::WebForward => 154,
            VirtualKeyCode::WebHome => 155,
            VirtualKeyCode::WebRefresh => 156,
            VirtualKeyCode::WebSearch => 157,
            VirtualKeyCode::WebStop => 158,
            VirtualKeyCode::Yen => 159,
            VirtualKeyCode::Copy => 160,
            VirtualKeyCode::Paste => 161,
            VirtualKeyCode::Cut => 162,
        }
    }

    /// The number of this key.
    #[verifier::when_used_as_spec(spec_code)]
    pub fn code(self) -> (r: u32)
        ensures
            r == self.spec_code(),
            r < VIRTUAL_KEY_COUNT,
    {
        match self {
            VirtualKeyCode::Key1 => 0,
            VirtualKeyCode::Key2 => 1,
            VirtualKeyCode::Key3 => 2,
            VirtualKeyCode::Key4 => 3,
            VirtualKeyCode::Key5 => 4,
            VirtualKeyCode::Key6 => 5,
            VirtualKeyCode::Key7 => 6,
            VirtualKeyCode::Key8 => 7,
            VirtualKeyCode::Key9 => 8,
            VirtualKeyCode::Key0 => 9,
            VirtualKeyCode::A => 10,
            VirtualKeyCode::B => 11,
            VirtualKeyCode::C => 12,
            VirtualKeyCode::D => 13,
            VirtualKeyCode::E => 14,
            VirtualKeyCode::F => 15,
            VirtualKeyCode::G => 16,
            VirtualKeyCode::H => 17,
            VirtualKeyCode::I => 18,
            VirtualKeyCode::J => 19,
            VirtualKeyCode::K => 20,
            VirtualKeyCode::L => 21,
            VirtualKeyCode::M => 22,
            VirtualKeyCode::N => 23,
            VirtualKeyCode::O => 24,
            VirtualKeyCode::P => 25,
            VirtualKeyCode::Q => 26,
            VirtualKeyCode::R => 27,
            VirtualKeyCode::S => 28,
            VirtualKeyCode::T => 29,
            VirtualKeyCode::U => 30,
            VirtualKeyCode::V => 31,
            VirtualKeyCode::W => 32,
            VirtualKeyCode::X => 33,
            VirtualKeyCode::Y => 34,
            VirtualKeyCode::Z => 35,
            VirtualKeyCode::Escape => 36,
            VirtualKeyCode::F1 => 37,
            VirtualKeyCode::F2 => 38,
            VirtualKeyCode::F3 => 39,
            VirtualKeyCode::F4 => 40,
            VirtualKeyCode::F5 => 41,
            VirtualKeyCode::F6 => 42,
            VirtualKeyCode::F7 => 43,
            VirtualKeyCode::F8 => 44,
            VirtualKeyCode::F9 => 45,
            VirtualKeyCode::F10 => 46,
            VirtualKeyCode::F11 => 47,
            VirtualKeyCode::F12 => 48,
            VirtualKeyCode::F13 => 49,
            VirtualKeyCode::F14 => 50,
            VirtualKeyCode::F15 => 51,
            VirtualKeyCode::F16 => 52,
            VirtualKeyCode::F17 => 53,
            VirtualKeyCode::F18 => 54,
            VirtualKeyCode::F19 => 55,
            VirtualKeyCode::F20 => 56,
            VirtualKeyCode::F21 => 57,
            VirtualKeyCode::F22 => 58,
            VirtualKeyCode::F23 => 59,
            VirtualKeyCode::F24 => 60,
            VirtualKeyCode::Snapshot => 61,
            VirtualKeyCode::Scroll => 62,
            VirtualKeyCode::Pause => 63,
            VirtualKeyCode::Insert => 64,
            VirtualKeyCode::Home => 65,
            VirtualKeyCode::Delete => 66,
            VirtualKeyCode::End => 67,
            VirtualKeyCode::PageDown => 68,
            VirtualKeyCode::PageUp => 69,
            VirtualKeyCode::Left => 70,
            VirtualKeyCode::Up => 71,
            VirtualKeyCode::Right => 72,
            VirtualKeyCode::Down => 73,
            VirtualKeyCode::Back => 74,
            VirtualKeyCode::Return => 75,
            VirtualKeyCode::Space => 76,
            VirtualKeyCode::Compose => 77,
            VirtualKeyCode::Caret => 78,
            VirtualKeyCode::Numlock => 79,
            VirtualKeyCode::Numpad0 => 80,
            VirtualKeyCode::Numpad1 => 81,
            VirtualKeyCode::Numpad2 => 82,
            VirtualKeyCode::Numpad3 => 83,
            VirtualKeyCode::Numpad4 => 84,
            VirtualKeyCode::Numpad5 => 85,
            VirtualKeyCode::Numpad6 => 86,
            VirtualKeyCode::Numpad7 => 87,
            VirtualKeyCode::Numpad8 => 88,
            VirtualKeyCode::Numpad9 => 89,
            VirtualKeyCode::NumpadAdd => 90,
            VirtualKeyCode::NumpadDivide => 91,
            VirtualKeyCode::NumpadDecimal => 92,
            VirtualKeyCode::NumpadComma => 93,
            VirtualKeyCode::NumpadEnter => 94,
            VirtualKeyCode::NumpadEquals => 95,
            VirtualKeyCode::NumpadMultiply => 96,
            VirtualKeyCode::NumpadSubtract => 97,
            VirtualKeyCode::AbntC1 => 98,
            VirtualKeyCode::AbntC2 => 99,
            VirtualKeyCode::Apostrophe => 100,
            VirtualKeyCode::Apps => 101,
            VirtualKeyCode::Asterisk => 102,
            VirtualKeyCode::At => 103,
            VirtualKeyCode::Ax => 104,
            VirtualKeyCode::Backslash => 105,
            VirtualKeyCode::Calculator => 106,
            VirtualKeyCode::Capital => 107,
            VirtualKeyCode::Colon => 108,
            VirtualKeyCode::Comma => 109,
            VirtualKeyCode::Convert => 110,
            VirtualKeyCode::Equals => 111,
            VirtualKeyCode::Grave => 112,
            VirtualKeyCode::Kana => 113,
            VirtualKeyCode::Kanji => 114,
            VirtualKeyCode::LAlt => 115,
            VirtualKeyCode::LBracket => 116,
            VirtualKeyCode::LControl => 117,
            VirtualKeyCode::LShift => 118,
            VirtualKeyCode::LWin => 119,
            VirtualKeyCode::Mail => 120,
            VirtualKeyCode::MediaSelect => 121,
            VirtualKeyCode::MediaStop => 122,
            VirtualKeyCode::Minus => 123,
            VirtualKeyCode::Mute => 124,
            VirtualKeyCode::MyComputer => 125,
            VirtualKeyCode::NavigateForward => 126,
            VirtualKeyCode::NavigateBackward => 127,
            VirtualKeyCode::NextTrack => 128,
            VirtualKeyCode::NoConvert => 129,
            VirtualKeyCode::OEM102 => 130,
            VirtualKeyCode::Period => 131,
            VirtualKeyCode::PlayPause => 132,
            VirtualKeyCode::Plus => 133,
            VirtualKeyCode::Power => 134,
            VirtualKeyCode::PrevTrack => 135,
            VirtualKeyCode::RAlt => 136,
            VirtualKeyCode::RBracket => 137,
            VirtualKeyCode::RControl => 138,
            VirtualKeyCode::RShift => 139,
            VirtualKeyCode::RWin => 140,
            VirtualKeyCode::Semicolon => 141,
            VirtualKeyCode::Slash => 142,
            VirtualKeyCode::Sleep => 143,
            VirtualKeyCode::Stop => 144,
            VirtualKeyCode::Sysrq => 145,
            VirtualKeyCode::Tab => 146,
            VirtualKeyCode::Underline => 147,
            VirtualKeyCode::Unlabeled => 148,
            VirtualKeyCode::VolumeDown => 149,
            VirtualKeyCode::VolumeUp => 150,
            VirtualKeyCode::Wake => 151,
            VirtualKeyCode::WebBack => 152,
            VirtualKeyCode::WebFavorites => 153,
            VirtualKeyCode::WebForward => 154,
            VirtualKeyCode::WebHome => 155,
            VirtualKeyCode::WebRefresh => 156,
            VirtualKeyCode::WebSearch => 157,
            VirtualKeyCode::WebStop => 158,
            VirtualKeyCode::Yen => 159,
            VirtualKeyCode::Copy => 160,
            VirtualKeyCode::Paste => 161,
            VirtualKeyCode::Cut => 162,
        }
    }

    /// The key with the number `code`, if there is one.
    pub open spec fn spec_from_code(code: u32) -> Option<VirtualKeyCode> {
        match code {
            0 => Some(VirtualKeyCode::Key1),
            1 => Some(VirtualKeyCode::Key2),
            2 => Some(VirtualKeyCode::Key3),
            3 => Some(VirtualKeyCode::Key4),
            4 => Some(VirtualKeyCode::Key5),
            5 => Some(VirtualKeyCode::Key6),
            6 => Some(VirtualKeyCode::Key7),
            7 => Some(VirtualKeyCode::Key8),
            8 => Some(VirtualKeyCode::Key9),
            9 => Some(VirtualKeyCode::Key0),
            10 => Some(VirtualKeyCode::A),
            11 => Some(VirtualKeyCode::B),
            12 => Some(VirtualKeyCode::C),
            13 => Some(VirtualKeyCode::D),
            14 => Some(VirtualKeyCode::E),
            15 => Some(VirtualKeyCode::F),
            16 => Some(VirtualKeyCode::G),
            17 => Some(VirtualKeyCode::H),
            18 => Some(VirtualKeyCode::I),
            19 => Some(VirtualKeyCode::J),
            20 => Some(VirtualKeyCode::K),
            21 => Some(VirtualKeyCode::L),
            22 => Some(VirtualKeyCode::M),
            23 => Some(VirtualKeyCode::N),
            24 => Some(VirtualKeyCode::O),
            25 => Some(VirtualKeyCode::P),
            26 => Some(VirtualKeyCode::Q),
            27 => Some(VirtualKeyCode::R),
            28 => Some(VirtualKeyCode::S),
            29 => Some(VirtualKeyCode::T),
            30 => Some(VirtualKeyCode::U),
            31 => Some(VirtualKeyCode::V),
            32 => Some(VirtualKeyCode::W),
            33 => Some(VirtualKeyCode::X),
            34 => Some(VirtualKeyCode::Y),
            35 => Some(VirtualKeyCode::Z),
            36 => Some(VirtualKeyCode::Escape),
            37 => Some(VirtualKeyCode::F1),
            38 => Some(VirtualKeyCode::F2),
            39 => Some(VirtualKeyCode::F3),
            40 => Some(VirtualKeyCode::F4),
            41 => Some(VirtualKeyCode::F5),
            42 => Some(VirtualKeyCode::F6),
            43 => Some(VirtualKeyCode::F7),
            44 => Some(VirtualKeyCode::F8),
            45 => Some(VirtualKeyCode::F9),
            46 => Some(VirtualKeyCode::F10),
            47 => Some(VirtualKeyCode::F11),
            48 => Some(VirtualKeyCode::F12),
            49 => Some(VirtualKeyCode::F13),
            50 => Some(VirtualKeyCode::F14),
            51 => Some(VirtualKeyCode::F15),
            52 => Some(VirtualKeyCode::F16),
            53 => Some(VirtualKeyCode::F17),
            54 => Some(VirtualKeyCode::F18),
            55 => Some(VirtualKeyCode::F19),
            56 => Some(VirtualKeyCode::F20),
            57 => Some(VirtualKeyCode::F21),
            58 => Some(VirtualKeyCode::F22),
            59 => Some(VirtualKeyCode::F23),
            60 => Some(VirtualKeyCode::F24),
            61 => Some(VirtualKeyCode::Snapshot),
            62 => Some(VirtualKeyCode::Scroll),
            63 => Some(VirtualKeyCode::Pause),
            64 => Some(VirtualKeyCode::Insert),
            65 => Some(VirtualKeyCode::Home),
            66 => Some(VirtualKeyCode::Delete),
            67 => Some(VirtualKeyCode::End),
            68 => Some(VirtualKeyCode::PageDown),
            69 => Some(VirtualKeyCode::PageUp),
            70 => Some(VirtualKeyCode::Left),
            71 => Some(VirtualKeyCode::Up),
            72 => Some(VirtualKeyCode::Right),
            73 => Some(VirtualKeyCode::Down),
            74 => Some(VirtualKeyCode::Back),
            75 => Some(VirtualKeyCode::Return),
            76 => Some(VirtualKeyCode::Space),
            77 => Some(VirtualKeyCode::Compose),
            78 => Some(VirtualKeyCode::Caret),
            79 => Some(VirtualKeyCode::Numlock),
            80 => Some(VirtualKeyCode::Numpad0),
            81 => Some(VirtualKeyCode::Numpad1),
            82 => Some(VirtualKeyCode::Numpad2),
            83 => Some(VirtualKeyCode::Numpad3),
            84 => Some(VirtualKeyCode::Numpad4),
            85 => Some(VirtualKeyCode::Numpad5),
            86 => Some(VirtualKeyCode::Numpad6),
            87 => Some(VirtualKeyCode::Numpad7),
            88 => Some(VirtualKeyCode::Numpad8),
            89 => Some(VirtualKeyCode::Numpad9),
            90 => Some(VirtualKeyCode::NumpadAdd),
            91 => Some(VirtualKeyCode::NumpadDivide),
            92 => Some(VirtualKeyCode::NumpadDecimal),
            93 => Some(VirtualKeyCode::NumpadComma),
            94 => Some(VirtualKeyCode::NumpadEnter),
            95 => Some(VirtualKeyCode::NumpadEquals),
            96 => Some(VirtualKeyCode::NumpadMultiply),
            97 => Some(VirtualKeyCode::NumpadSubtract),
            98 => Some(VirtualKeyCode::AbntC1),
            99 => Some(VirtualKeyCode::AbntC2),
            100 => Some(VirtualKeyCode::Apostrophe),
            101 => Some(VirtualKeyCode::Apps),
            102 => Some(VirtualKeyCode::Asterisk),
            103 => Some(VirtualKeyCode::At),
            104 => Some(VirtualKeyCode::Ax),
            105 => Some(VirtualKeyCode::Backslash),
            106 => Some(VirtualKeyCode::Calculator),
            107 => Some(VirtualKeyCode::Capital),
            108 => Some(VirtualKeyCode::Colon),
            109 => Some(VirtualKeyCode::Comma),
            110 => Some(VirtualKeyCode::Convert),
            111 => Some(VirtualKeyCode::Equals),
            112 => Some(VirtualKeyCode::Grave),
            113 => Some(VirtualKeyCode::Kana),
            114 => Some(VirtualKeyCode::Kanji),
            115 => Some(VirtualKeyCode::LAlt),
            116 => Some(VirtualKeyCode::LBracket),
            117 => Some(VirtualKeyCode::LControl),
            118 => Some(VirtualKeyCode::LShift),
            119 => Some(VirtualKeyCode::LWin),
            120 => Some(VirtualKeyCode::Mail),
            121 => Some(VirtualKeyCode::MediaSelect),
            122 => Some(VirtualKeyCode::MediaStop),
            123 => Some(VirtualKeyCode::Minus),
            124 => Some(VirtualKeyCode::Mute),
            125 => Some(VirtualKeyCode::MyComputer),
            126 => Some(VirtualKeyCode::NavigateForward),
            127 => Some(VirtualKeyCode::NavigateBackward),
            128 => Some(VirtualKeyCode::NextTrack),
            129 => Some(VirtualKeyCode::NoConvert),
            130 => Some(VirtualKeyCode::OEM102),
            131 => Some(VirtualKeyCode::Period),
            132 => Some(VirtualKeyCode::PlayPause),
            133 => Some(VirtualKeyCode::Plus),
            134 => Some(VirtualKeyCode::Power),
            135 => Some(VirtualKeyCode::PrevTrack),
            136 => Some(VirtualKeyCode::RAlt),
            137 => Some(VirtualKeyCode::RBracket),
            138 => Some(VirtualKeyCode::RControl),
            139 => Some(VirtualKeyCode::RShift),
            140 => Some(VirtualKeyCode::RWin),
            141 => Some(VirtualKeyCode::Semicolon),
            142 => Some(VirtualKeyCode::Slash),
            143 => Some(VirtualKeyCode::Sleep),
            144 => Some(VirtualKeyCode::Stop),
            145 => Some(VirtualKeyCode::Sysrq),
            146 => Some(VirtualKeyCode::Tab),
            147 => Some(VirtualKeyCode::Underline),
            148 => Some(VirtualKeyCode::Unlabeled),
            149 => Some(VirtualKeyCode::VolumeDown),
            150 => Some(VirtualKeyCode::VolumeUp),
            151 => Some(VirtualKeyCode::Wake),
            152 => Some(VirtualKeyCode::WebBack),
            153 => Some(VirtualKeyCode::WebFavorites),
            154 => Some(VirtualKeyCode::WebForward),
            155 => Some(VirtualKeyCode::WebHome),
            156 => Some(VirtualKeyCode::WebRefresh),
            157 => Some(VirtualKeyCode::WebSearch),
            158 => Some(VirtualKeyCode::WebStop),
            159 => Some(VirtualKeyCode::Yen),
            160 => Some(VirtualKeyCode::Copy),
            161 => Some(VirtualKeyCode::Paste),
            162 => Some(VirtualKeyCode::Cut),
            _ => None,
        }
    }

    /// The key with the number `code`, if there is one.
    #[verifier::when_used_as_spec(spec_from_code)]
    pub fn from_code(code: u32) -> (r: Option<VirtualKeyCode>)
        ensures
            r == Self::spec_from_code(code),
            r is Some <==> code < VIRTUAL_KEY_COUNT,
            r is Some ==> r->0.spec_code() == code,
    {
        match code {
            0 => Some(VirtualKeyCode::Key1),
            1 => Some(VirtualKeyCode::Key2),
            2 => Some(VirtualKeyCode::Key3),
            3 => Some(VirtualKeyCode::Key4),
            4 => Some(VirtualKeyCode::Key5),
            5 => Some(VirtualKeyCode::Key6),
            6 => Some(VirtualKeyCode::Key7),
            7 => Some(VirtualKeyCode::Key8),
            8 => Some(VirtualKeyCode::Key9),
            9 => Some(VirtualKeyCode::Key0),
            10 => Some(VirtualKeyCode::A),
            11 => Some(VirtualKeyCode::B),
            12 => Some(VirtualKeyCode::C),
            13 => Some(VirtualKeyCode::D),
            14 => Some(VirtualKeyCode::E),
            15 => Some(VirtualKeyCode::F),
            16 => Some(VirtualKeyCode::G),
            17 => Some(VirtualKeyCode::H),
            18 => Some(VirtualKeyCode::I),
            19 => Some(VirtualKeyCode::J),
            20 => Some(VirtualKeyCode::K),
            21 => Some(VirtualKeyCode::L),
            22 => Some(VirtualKeyCode::M),
            23 => Some(VirtualKeyCode::N),
            24 => Some(VirtualKeyCode::O),
            25 => Some(VirtualKeyCode::P),
            26 => Some(VirtualKeyCode::Q),
            27 => Some(VirtualKeyCode::R),
            28 => Some(VirtualKeyCode::S),
            29 => Some(VirtualKeyCode::T),
            30 => Some(VirtualKeyCode::U),
            31 => Some(VirtualKeyCode::V),
            32 => Some(VirtualKeyCode::W),
            33 => Some(VirtualKeyCode::X),
            34 => Some(VirtualKeyCode::Y),
            35 => Some(VirtualKeyCode::Z),
            36 => Some(VirtualKeyCode::Escape),
            37 => Some(VirtualKeyCode::F1),
            38 => Some(VirtualKeyCode::F2),
            39 => Some(VirtualKeyCode::F3),
            40 => Some(VirtualKeyCode::F4),
            41 => Some(VirtualKeyCode::F5),
            42 => Some(VirtualKeyCode::F6),
            43 => Some(VirtualKeyCode::F7),
            44 => Some(VirtualKeyCode::F8),
            45 => Some(VirtualKeyCode::F9),
            46 => Some(VirtualKeyCode::F10),
            47 => Some(VirtualKeyCode::F11),
            48 => Some(VirtualKeyCode::F12),
            49 => Some(VirtualKeyCode::F13),
            50 => Some(VirtualKeyCode::F14),
            51 => Some(VirtualKeyCode::F15),
            52 => Some(VirtualKeyCode::F16),
            53 => Some(VirtualKeyCode::F17),
            54 => Some(VirtualKeyCode::F18),
            55 => Some(VirtualKeyCode::F19),
            56 => Some(VirtualKeyCode::F20),
            57 => Some(VirtualKeyCode::F21),
            58 => Some(VirtualKeyCode::F22),
            59 => Some(VirtualKeyCode::F23),
            60 => Some(VirtualKeyCode::F24),
            61 => Some(VirtualKeyCode::Snapshot),
            62 => Some(VirtualKeyCode::Scroll),
            63 => Some(VirtualKeyCode::Pause),
            64 => Some(VirtualKeyCode::Insert),
            65 => Some(VirtualKeyCode::Home),
            66 => Some(VirtualKeyCode::Delete),
            67 => Some(VirtualKeyCode::End),
            68 => Some(VirtualKeyCode::PageDown),
            69 => Some(VirtualKeyCode::PageUp),
            70 => Some(VirtualKeyCode::Left),
            71 => Some(VirtualKeyCode::Up),
            72 => Some(VirtualKeyCode::Right),
            73 => Some(VirtualKeyCode::Down),
            74 => Some(VirtualKeyCode::Back),
            75 => Some(VirtualKeyCode::Return),
            76 => Some(VirtualKeyCode::Space),
            77 => Some(VirtualKeyCode::Compose),
            78 => Some(VirtualKeyCode::Caret),
            79 => Some(VirtualKeyCode::Numlock),
            80 => Some(VirtualKeyCode::Numpad0),
            81 => Some(VirtualKeyCode::Numpad1),
            82 => Some(VirtualKeyCode::Numpad2),
            83 => Some(VirtualKeyCode::Numpad3),
            84 => Some(VirtualKeyCode::Numpad4),
            85 => Some(VirtualKeyCode::Numpad5),
            86 => Some(VirtualKeyCode::Numpad6),
            87 => Some(VirtualKeyCode::Numpad7),
            88 => Some(VirtualKeyCode::Numpad8),
            89 => Some(VirtualKeyCode::Numpad9),
            90 => Some(VirtualKeyCode::NumpadAdd),
            91 => Some(VirtualKeyCode::NumpadDivide),
            92 => Some(VirtualKeyCode::NumpadDecimal),
            93 => Some(VirtualKeyCode::NumpadComma),
            94 => Some(VirtualKeyCode::NumpadEnter),
            95 => Some(VirtualKeyCode::NumpadEquals),
            96 => Some(VirtualKeyCode::NumpadMultiply),
            97 => Some(VirtualKeyCode::NumpadSubtract),
            98 => Some(VirtualKeyCode::AbntC1),
            99 => Some(VirtualKeyCode::AbntC2),
            100 => Some(VirtualKeyCode::Apostrophe),
            101 => Some(VirtualKeyCode::Apps),
            102 => Some(VirtualKeyCode::Asterisk),
            103 => Some(VirtualKeyCode::At),
            104 => Some(VirtualKeyCode::Ax),
            105 => Some(VirtualKeyCode::Backslash),
            106 => Some(VirtualKeyCode::Calculator),
            107 => Some(VirtualKeyCode::Capital),
            108 => Some(VirtualKeyCode::Colon),
            109 => Some(VirtualKeyCode::Comma),
            110 => Some(VirtualKeyCode::Convert),
            111 => Some(VirtualKeyCode::Equals),
            112 => Some(VirtualKeyCode::Grave),
            113 => Some(VirtualKeyCode::Kana),
            114 => Some(VirtualKeyCode::Kanji),
            115 => Some(VirtualKeyCode::LAlt),
            116 => Some(VirtualKeyCode::LBracket),
            117 => Some(VirtualKeyCode::LControl),
            118 => Some(VirtualKeyCode::LShift),
            119 => Some(VirtualKeyCode::LWin),
            120 => Some(VirtualKeyCode::Mail),
            121 => Some(VirtualKeyCode::MediaSelect),
            122 => Some(VirtualKeyCode::MediaStop),
            123 => Some(VirtualKeyCode::Minus),
            124 => Some(VirtualKeyCode::Mute),
            125 => Some(VirtualKeyCode::MyComputer),
            126 => Some(VirtualKeyCode::NavigateForward),
            127 => Some(VirtualKeyCode::NavigateBackward),
            128 => Some(VirtualKeyCode::NextTrack),
            129 => Some(VirtualKeyCode::NoConvert),
            130 => Some(VirtualKeyCode::OEM102),
            131 => Some(VirtualKeyCode::Period),
            132 => Some(VirtualKeyCode::PlayPause),
            133 => Some(VirtualKeyCode::Plus),
            134 => Some(VirtualKeyCode::Power),
            135 => Some(VirtualKeyCode::PrevTrack),
            136 => Some(VirtualKeyCode::RAlt),
            137 => Some(VirtualKeyCode::RBracket),
            138 => Some(VirtualKeyCode::RControl),
            139 => Some(VirtualKeyCode::RShift),
            140 => Some(VirtualKeyCode::RWin),
            141 => Some(VirtualKeyCode::Semicolon),
            142 => Some(VirtualKeyCode::Slash),
            143 => Some(VirtualKeyCode::Sleep),
            144 => Some(VirtualKeyCode::Stop),
            145 => Some(VirtualKeyCode::Sysrq),
            146 => Some(VirtualKeyCode::Tab),
            147 => Some(VirtualKeyCode::Underline),
            148 => Some(VirtualKeyCode::Unlabeled),
            149 => Some(VirtualKeyCode::VolumeDown),
            150 => Some(VirtualKeyCode::VolumeUp),
            151 => Some(VirtualKeyCode::Wake),
            152 => Some(VirtualKeyCode::WebBack),
            153 => Some(VirtualKeyCode::WebFavorites),
            154 => Some(VirtualKeyCode::WebForward),
            155 => Some(VirtualKeyCode::WebHome),
            156 => Some(VirtualKeyCode::WebRefresh),
            157 => Some(VirtualKeyCode::WebSearch),
            158 => Some(VirtualKeyCode::WebStop),
            159 => Some(VirtualKeyCode::Yen),
            160 => Some(VirtualKeyCode::Copy),
            161 => Some(VirtualKeyCode::Paste),
            162 => Some(VirtualKeyCode::Cut),
            _ => None,
        }
    }
}

/// Numbering the keys loses nothing: the number of a key leads back to the
/// key.
pub proof fn lemma_code_round_trip(key: VirtualKeyCode)
    ensures
        key.spec_code() < VIRTUAL_KEY_COUNT,
        VirtualKeyCode::spec_from_code(key.spec_code()) == Some(key),
{
}

} // verus!
