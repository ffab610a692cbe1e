//! The keys that the library knows, each with a number below 256.
//!
//! The numbers follow the virtual key codes that desktop systems use: digits
//! and upper-case letters have their ASCII codes, function keys start at 112.
//! The number of a key is its place in the keyboard bitset.

use vstd::prelude::*;

verus! {

/// XDL keycode
///
/// A key of the keyboard, independent of the system that reports it.
#[derive(Debug, Clone, Copy, PartialEq, Eq, Hash, Structural)]
pub enum Key {
    /// No key: never reported as down.
    NoKey,
    /// Backspace
    Back,
    Tab,
    Enter,
    CapsLock,
    Escape,
    Space,
    PageUp,
    PageDown,
    End,
    Home,
    Left,
    Up,
    Right,
    Down,
    Select,
    Print,
    Execute,
    PrintScreen,
    Insert,
    Delete,
    Help,
    /// Digit 0
    D0,
    D1,
    D2,
    D3,
    D4,
    D5,
    D6,
    D7,
    D8,
    D9,
    A,
    B,
    C,
    D,
    E,
    F,
    G,
    H,
    I,
    J,
    K,
    L,
    M,
    N,
    O,
    P,
    Q,
    R,
    S,
    T,
    U,
    V,
    W,
    X,
    Y,
    Z,
    LMeta,
    RMeta,
    Apps,
    Sleep,
    NumPad0,
    NumPad1,
    NumPad2,
    NumPad3,
    NumPad4,
    NumPad5,
    NumPad6,
    NumPad7,
    NumPad8,
    NumPad9,
    Star,
    Plus,
    Minus,
    Decimal,
    Slash,
    F1,
    F2,
    F3,
    F4,
    F5,
    F6,
    F7,
    F8,
    F9,
    F10,
    F11,
    F12,
    F13,
    F14,
    F15,
    F16,
    F17,
    F18,
    F19,
    F20,
    F21,
    F22,
    F23,
    F24,
    NumLock,
    Scroll,
    LShift,
    RShift,
    LCtrl,
    RCtrl,
    LAlt,
    RAlt,
    BrowserBack,
    BrowserForward,
    BrowserRefresh,
    BrowserStop,
    BrowserSearch,
    BrowserFavorites,
    BrowserHome,
    VolumeMute,
    VolumeDown,
    VolumeUp,
    MediaNextTrack,
    MediaPreviousTrack,
    MediaStop,
    MediaPlayPause,
    LaunchMail,
    SelectMedia,
    LaunchApplication1,
    LaunchApplication2,
    /// The OEM Semicolon key on a US standard keyboard.
    OemSemicolon,
    OemPlus,
    OemComma,
    OemMinus,
    OemPeriod,
    OemQuestion,
    OemTilde,
    OemOpenBrackets,
    OemPipe,
    OemCloseBrackets,
    OemQuotes,
    Oem8,
    OemBackslash,
    ProcessKey,
    Attn,
    Crsel,
    Exsel,
    EraseEof,
    Play,
    Zoom,
    Pa1,
    OemClear,
    ChatPadGreen,
    ChatPadOrange,
    Pause,
    ImeConvert,
    ImeNoConvert,
    Kana,
    Kanji,
    OemAuto,
    OemCopy,
    /// OEM Enlarge Window key.
    OemEnlW,
}

impl Key {
    /// The number of the key.
    pub open spec fn spec_code(&self) -> u32 {
        match self {
            Key::NoKey => 0,
            Key::Back => 8,
            Key::Tab => 9,
            Key::Enter => 13,
            Key::CapsLock => 20,
            Key::Escape => 27,
            Key::Space => 32,
            Key::PageUp => 33,
            Key::PageDown => 34,
            Key::End => 35,
            Key::Home => 36,
            Key::Left => 37,
            Key::Up => 38,
            Key::Right => 39,
            Key::Down => 40,
            Key::Select => 41,
            Key::Print => 42,
            Key::Execute => 43,
            Key::PrintScreen => 44,
            Key::Insert => 45,
            Key::Delete => 46,
            Key::Help => 47,
            Key::D0 => 48,
            Key::D1 => 49,
            Key::D2 => 50,
            Key::D3 => 51,
            Key::D4 => 52,
            Key::D5 => 53,
            Key::D6 => 54,
            Key::D7 => 55,
            Key::D8 => 56,
            Key::D9 => 57,
            Key::A => 65,
            Key::B => 66,
            Key::C => 67,
            Key::D => 68,
            Key::E => 69,
            Key::F => 70,
            Key::G => 71,
            Key::H => 72,
            Key::I => 73,
            Key::J => 74,
            Key::K => 75,
            Key::L => 76,
            Key::M => 77,
            Key::N => 78,
            Key::O => 79,
            Key::P => 80,
            Key::Q => 81,
            Key::R => 82,
            Key::S => 83,
            Key::T => 84,
            Key::U => 85,
            Key::V => 86,
            Key::W => 87,
            Key::X => 88,
            Key::Y => 89,
            Key::Z => 90,
            Key::LMeta => 91,
            Key::RMeta => 92,
            Key::Apps => 93,
            Key::Sleep => 95,
            Key::NumPad0 => 96,
            Key::NumPad1 => 97,
            Key::NumPad2 => 98,
            Key::NumPad3 => 99,
            Key::NumPad4 => 100,
            Key::NumPad5 => 101,
            Key::NumPad6 => 102,
            Key::NumPad7 => 103,
            Key::NumPad8 => 104,
            Key::NumPad9 => 105,
            Key::Star => 106,
            Key::Plus => 107,
            Key::Minus => 109,
            Key::Decimal => 110,
            Key::Slash => 111,
            Key::F1 => 112,
            Key::F2 => 113,
            Key::F3 => 114,
            Key::F4 => 115,
            Key::F5 => 116,
            Key::F6 => 117,
            Key::F7 => 118,
            Key::F8 => 119,
            Key::F9 => 120,
            Key::F10 => 121,
            Key::F11 => 122,
            Key::F12 => 123,
            Key::F13 => 124,
            Key::F14 => 125,
            Key::F15 => 126,
            Key::F16 => 127,
            Key::F17 => 128,
            Key::F18 => 129,
            Key::F19 => 130,
            Key::F20 => 131,
            Key::F21 => 132,
            Key::F22 => 133,
            Key::F23 => 134,
            Key::F24 => 135,
            Key::NumLock => 144,
            Key::Scroll => 145,
            Key::LShift => 160,
            Key::RShift => 161,
            Key::LCtrl => 162,
            Key::RCtrl => 163,
            Key::LAlt => 164,
            Key::RAlt => 165,
            Key::BrowserBack => 166,
            Key::BrowserForward => 167,
            Key::BrowserRefresh => 168,
            Key::BrowserStop => 169,
            Key::BrowserSearch => 170,
            Key::BrowserFavorites => 171,
            Key::BrowserHome => 172,
            Key::VolumeMute => 173,
            Key::VolumeDown => 174,
            Key::VolumeUp => 175,
            Key::MediaNextTrack => 176,
            Key::MediaPreviousTrack => 177,
            Key::MediaStop => 178,
            Key::MediaPlayPause => 179,
            Key::LaunchMail => 180,
            Key::SelectMedia => 181,
            Key::LaunchApplication1 => 182,
            Key::LaunchApplication2 => 183,
            Key::OemSemicolon => 186,
            Key::OemPlus => 187,
            Key::OemComma => 188,
            Key::OemMinus => 189,
            Key::OemPeriod => 190,
            Key::OemQuestion => 191,
            Key::OemTilde => 192,
            Key::OemOpenBrackets => 219,
            Key::OemPipe => 220,
            Key::OemCloseBrackets => 221,
            Key::OemQuotes => 222,
            Key::Oem8 => 223,
            Key::OemBackslash => 226,
            Key::ProcessKey => 229,
            Key::Attn => 246,
            Key::Crsel => 247,
            Key::Exsel => 248,
            Key::EraseEof => 249,
            Key::Play => 250,
            Key::Zoom => 251,
            Key::Pa1 => 253,
            Key::OemClear => 254,
            Key::ChatPadGreen => 202,
            Key::ChatPadOrange => 203,
            Key::Pause => 19,
            Key::ImeConvert => 28,
            Key::ImeNoConvert => 29,
            Key::Kana => 21,
            Key::Kanji => 25,
            Key::OemAuto => 243,
            Key::OemCopy => 242,
            Key::OemEnlW => 244,
        }
    }

    /// The number of the key, which is below 256.
    #[verifier::when_used_as_spec(spec_code)]
    pub fn code(&self) -> (c: u32)
        ensures
            c == self.spec_code(),
            c < 256,
    {
        match self {
            Key::NoKey => 0,
            Key::Back => 8,
            Key::Tab => 9,
            Key::Enter => 13,
            Key::CapsLock => 20,
            Key::Escape => 27,
            Key::Space => 32,
            Key::PageUp => 33,
            Key::PageDown => 34,
            Key::End => 35,
            Key::Home => 36,
            Key::Left => 37,
            Key::Up => 38,
            Key::Right => 39,
            Key::Down => 40,
            Key::Select => 41,
            Key::Print => 42,
            Key::Execute => 43,
            Key::PrintScreen => 44,
            Key::Insert => 45,
            Key::Delete => 46,
            Key::Help => 47,
            Key::D0 => 48,
            Key::D1 => 49,
            Key::D2 => 50,
            Key::D3 => 51,
            Key::D4 => 52,
            Key::D5 => 53,
            Key::D6 => 54,
            Key::D7 => 55,
            Key::D8 => 56,
            Key::D9 => 57,
            Key::A => 65,
            Key::B => 66,
            Key::C => 67,
            Key::D => 68,
            Key::E => 69,
            Key::F => 70,
            Key::G => 71,
            Key::H => 72,
            Key::I => 73,
            Key::J => 74,
            Key::K => 75,
            Key::L => 76,
            Key::M => 77,
            Key::N => 78,
            Key::O => 79,
            Key::P => 80,
            Key::Q => 81,
            Key::R => 82,
            Key::S => 83,
            Key::T => 84,
            Key::U => 85,
            Key::V => 86,
            Key::W => 87,
            Key::X => 88,
            Key::Y => 89,
            Key::Z => 90,
            Key::LMeta => 91,
            Key::RMeta => 92,
            Key::Apps => 93,
            Key::Sleep => 95,
            Key::NumPad0 => 96,
            Key::NumPad1 => 97,
            Key::NumPad2 => 98,
            Key::NumPad3 => 99,
            Key::NumPad4 => 100,
            Key::NumPad5 => 101,
            Key::NumPad6 => 102,
            Key::NumPad7 => 103,
            Key::NumPad8 => 104,
            Key::NumPad9 => 105,
            Key::Star => 106,
            Key::Plus => 107,
            Key::Minus => 109,
            Key::Decimal => 110,
            Key::Slash => 111,
            Key::F1 => 112,
            Key::F2 => 113,
            Key::F3 => 114,
            Key::F4 => 115,
            Key::F5 => 116,
            Key::F6 => 117,
            Key::F7 => 118,
            Key::F8 => 119,
            Key::F9 => 120,
            Key::F10 => 121,
            Key::F11 => 122,
            Key::F12 => 123,
            Key::F13 => 124,
            Key::F14 => 125,
            Key::F15 => 126,
            Key::F16 => 127,
            Key::F17 => 128,
            Key::F18 => 129,
            Key::F19 => 130,
            Key::F20 => 131,
            Key::F21 => 132,
            Key::F22 => 133,
            Key::F23 => 134,
            Key::F24 => 135,
            Key::NumLock => 144,
            Key::Scroll => 145,
            Key::LShift => 160,
            Key::RShift => 161,
            Key::LCtrl => 162,
            Key::RCtrl => 163,
            Key::LAlt => 164,
            Key::RAlt => 165,
            Key::BrowserBack => 166,
            Key::BrowserForward => 167,
            Key::BrowserRefresh => 168,
            Key::BrowserStop => 169,
            Key::BrowserSearch => 170,
            Key::BrowserFavorites => 171,
            Key::BrowserHome => 172,
            Key::VolumeMute => 173,
            Key::VolumeDown => 174,
            Key::VolumeUp => 175,
            Key::MediaNextTrack => 176,
            Key::MediaPreviousTrack => 177,
            Key::MediaStop => 178,
            Key::MediaPlayPause => 179,
            Key::LaunchMail => 180,
            Key::SelectMedia => 181,
            Key::LaunchApplication1 => 182,
            Key::LaunchApplication2 => 183,
            Key::OemSemicolon => 186,
            Key::OemPlus => 187,
            Key::OemComma => 188,
            Key::OemMinus => 189,
            Key::OemPeriod => 190,
            Key::OemQuestion => 191,
            Key::OemTilde => 192,
            Key::OemOpenBrackets => 219,
            Key::OemPipe => 220,
            Key::OemCloseBrackets => 221,
            Key::OemQuotes => 222,
            Key::Oem8 => 223,
            Key::OemBackslash => 226,
            Key::ProcessKey => 229,
            Key::Attn => 246,
            Key::Crsel => 247,
            Key::Exsel => 248,
            Key::EraseEof => 249,
            Key::Play => 250,
            Key::Zoom => 251,
            Key::Pa1 => 253,
            Key::OemClear => 254,
            Key::ChatPadGreen => 202,
            Key::ChatPadOrange => 203,
            Key::Pause => 19,
            Key::ImeConvert => 28,
            Key::ImeNoConvert => 29,
            Key::Kana => 21,
            Key::Kanji => 25,
            Key::OemAuto => 243,
            Key::OemCopy => 242,
            Key::OemEnlW => 244,
        }
    }

    /// The key with the number `code`, if there is one.
    #[verifier::rlimit(30)]
    pub fn from_code(code: u32) -> (r: Option<Key>)
        ensures
            r matches Some(k) ==> k.code() == code,
            r is None ==> forall|k: Key| k.code() != code,
    {
        match code {
            0 => Some(Key::NoKey),
            8 => Some(Key::Back),
            9 => Some(Key::Tab),
            13 => Some(Key::Enter),
            19 => Some(Key::Pause),
            20 => Some(Key::CapsLock),
            21 => Some(Key::Kana),
            25 => Some(Key::Kanji),
            27 => Some(Key::Escape),
            28 => Some(Key::ImeConvert),
            29 => Some(Key::ImeNoConvert),
            32 => Some(Key::Space),
            33 => Some(Key::PageUp),
            34 => Some(Key::PageDown),
            35 => Some(Key::End),
            36 => Some(Key::Home),
            37 => Some(Key::Left),
            38 => Some(Key::Up),
            39 => Some(Key::Right),
            40 => Some(Key::Down),
            41 => Some(Key::Select),
            42 => Some(Key::Print),
            43 => Some(Key::Execute),
            44 => Some(Key::PrintScreen),
            45 => Some(Key::Insert),
            46 => Some(Key::Delete),
            47 => Some(Key::Help),
            48 => Some(Key::D0),
            49 => Some(Key::D1),
            50 => Some(Key::D2),
            51 => Some(Key::D3),
            52 => Some(Key::D4),
            53 => Some(Key::D5),
            54 => Some(Key::D6),
            55 => Some(Key::D7),
            56 => Some(Key::D8),
            57 => Some(Key::D9),
            65 => Some(Key::A),
            66 => Some(Key::B),
            67 => Some(Key::C),
            68 => Some(Key::D),
            69 => Some(Key::E),
            70 => Some(Key::F),
            71 => Some(Key::G),
            72 => Some(Key::H),
            73 => Some(Key::I),
            74 => Some(Key::J),
            75 => Some(Key::K),
            76 => Some(Key::L),
            77 => Some(Key::M),
            78 => Some(Key::N),
            79 => Some(Key::O),
            80 => Some(Key::P),
            81 => Some(Key::Q),
            82 => Some(Key::R),
            83 => Some(Key::S),
            84 => Some(Key::T),
            85 => Some(Key::U),
            86 => Some(Key::V),
            87 => Some(Key::W),
            88 => Some(Key::X),
            89 => Some(Key::Y),
            90 => Some(Key::Z),
            91 => Some(Key::LMeta),
            92 => Some(Key::RMeta),
            93 => Some(Key::Apps),
            95 => Some(Key::Sleep),
            96 => Some(Key::NumPad0),
            97 => Some(Key::NumPad1),
            98 => Some(Key::NumPad2),
            99 => Some(Key::NumPad3),
            100 => Some(Key::NumPad4),
            101 => Some(Key::NumPad5),
            102 => Some(Key::NumPad6),
            103 => Some(Key::NumPad7),
            104 => Some(Key::NumPad8),
            105 => Some(Key::NumPad9),
            106 => Some(Key::Star),
            107 => Some(Key::Plus),
            109 => Some(Key::Minus),
            110 => Some(Key::Decimal),
            111 => Some(Key::Slash),
            112 => Some(Key::F1),
            113 => Some(Key::F2),
            114 => Some(Key::F3),
            115 => Some(Key::F4),
            116 => Some(Key::F5),
            117 => Some(Key::F6),
            118 => Some(Key::F7),
            119 => Some(Key::F8),
            120 => Some(Key::F9),
            121 => Some(Key::F10),
            122 => Some(Key::F11),
            123 => Some(Key::F12),
            124 => Some(Key::F13),
            125 => Some(Key::F14),
            126 => Some(Key::F15),
            127 => Some(Key::F16),
            128 => Some(Key::F17),
            129 => Some(Key::F18),
            130 => Some(Key::F19),
            131 => Some(Key::F20),
            132 => Some(Key::F21),
            133 => Some(Key::F22),
            134 => Some(Key::F23),
            135 => Some(Key::F24),
            144 => Some(Key::NumLock),
            145 => Some(Key::Scroll),
            160 => Some(Key::LShift),
            161 => Some(Key::RShift),
            162 => Some(Key::LCtrl),
            163 => Some(Key::RCtrl),
            164 => Some(Key::LAlt),
            165 => Some(Key::RAlt),
            166 => Some(Key::BrowserBack),
            167 => Some(Key::BrowserForward),
            168 => Some(Key::BrowserRefresh),
            169 => Some(Key::BrowserStop),
            170 => Some(Key::BrowserSearch),
            171 => Some(Key::BrowserFavorites),
            172 => Some(Key::BrowserHome),
            173 => Some(Key::VolumeMute),
            174 => Some(Key::VolumeDown),
            175 => Some(Key::VolumeUp),
            176 => Some(Key::MediaNextTrack),
            177 => Some(Key::MediaPreviousTrack),
            178 => Some(Key::MediaStop),
            179 => Some(Key::MediaPlayPause),
            180 => Some(Key::LaunchMail),
            181 => Some(Key::SelectMedia),
            182 => Some(Key::LaunchApplication1),
            183 => Some(Key::LaunchApplication2),
            186 => Some(Key::OemSemicolon),
            187 => Some(Key::OemPlus),
            188 => Some(Key::OemComma),
            189 => Some(Key::OemMinus),
            190 => Some(Key::OemPeriod),
            191 => Some(Key::OemQuestion),
            192 => Some(Key::OemTilde),
            202 => Some(Key::ChatPadGreen),
            203 => Some(Key::ChatPadOrange),
            219 => Some(Key::OemOpenBrackets),
            220 => Some(Key::OemPipe),
            221 => Some(Key::OemCloseBrackets),
            222 => Some(Key::OemQuotes),
            223 => Some(Key::Oem8),
            226 => Some(Key::OemBackslash),
            229 => Some(Key::ProcessKey),
            242 => Some(Key::OemCopy),
            243 => Some(Key::OemAuto),
            244 => Some(Key::OemEnlW),
            246 => Some(Key::Attn),
            247 => Some(Key::Crsel),
            248 => Some(Key::Exsel),
            249 => Some(Key::EraseEof),
            250 => Some(Key::Play),
            251 => Some(Key::Zoom),
            253 => Some(Key::Pa1),
            254 => Some(Key::OemClear),
            _ => None,
        }
    }

    /// The key that types `c`: the letter keys for `a` to `z`, and the keys
    /// of the space and of eleven symbols. `^` stands for the minus key.
    pub open spec fn spec_from_char(c: char) -> Option<Key> {
        match c {
            'a' => Some(Key::A),
            'b' => Some(Key::B),
            'c' => Some(Key::C),
            'd' => Some(Key::D),
            'e' => Some(Key::E),
            'f' => Some(Key::F),
            'g' => Some(Key::G),
            'h' => Some(Key::H),
            'i' => Some(Key::I),
            'j' => Some(Key::J),
            'k' => Some(Key::K),
            'l' => Some(Key::L),
            'm' => Some(Key::M),
            'n' => Some(Key::N),
            'o' => Some(Key::O),
            'p' => Some(Key::P),
            'q' => Some(Key::Q),
            'r' => Some(Key::R),
            's' => Some(Key::S),
            't' => Some(Key::T),
            'u' => Some(Key::U),
            'v' => Some(Key::V),
            'w' => Some(Key::W),
            'x' => Some(Key::X),
            'y' => Some(Key::Y),
            'z' => Some(Key::Z),
            ' ' => Some(Key::Space),
            '+' => Some(Key::Plus),
            '^' => Some(Key::Minus),
            '*' => Some(Key::Star),
            '/' => Some(Key::Slash),
            '~' => Some(Key::OemTilde),
            '.' => Some(Key::OemPeriod),
            '?' => Some(Key::OemQuestion),
            ';' => Some(Key::OemSemicolon),
            '|' => Some(Key::OemPipe),
            '{' => Some(Key::OemOpenBrackets),
            '}' => Some(Key::OemCloseBrackets),
            _ => None,
        }
    }

    /// a-z or symbol
    ///
    /// A lower-case letter gives its letter key, whose number is the ASCII
    /// code of the upper-case letter. Other characters give a key only where
    /// [`Key::spec_from_char`] lists them.
    pub fn from_char(c: char) -> (r: Option<Key>)
        ensures
            r == Key::spec_from_char(c),
            'a' <= c <= 'z' ==> (r matches Some(k) && k.code() == c as u32 - 32),
    {
        let key = match c {
            'a' => Key::A,
            'b' => Key::B,
            'c' => Key::C,
            'd' => Key::D,
            'e' => Key::E,
            'f' => Key::F,
            'g' => Key::G,
            'h' => Key::H,
            'i' => Key::I,
            'j' => Key::J,
            'k' => Key::K,
            'l' => Key::L,
            'm' => Key::M,
            'n' => Key::N,
            'o' => Key::O,
            'p' => Key::P,
            'q' => Key::Q,
            'r' => Key::R,
            's' => Key::S,
            't' => Key::T,
            'u' => Key::U,
            'v' => Key::V,
            'w' => Key::W,
            'x' => Key::X,
            'y' => Key::Y,
            'z' => Key::Z,
            //
            ' ' => Key::Space,
            '+' => Key::Plus,
            '^' => Key::Minus,
            '*' => Key::Star,
            '/' => Key::Slash,
            '~' => Key::OemTilde,
            '.' => Key::OemPeriod,
            '?' => Key::OemQuestion,
            ';' => Key::OemSemicolon,
            '|' => Key::OemPipe,
            '{' => Key::OemOpenBrackets,
            '}' => Key::OemCloseBrackets,
            _ => return None,
        };
        Some(key)
    }
}

/// No two keys share a number, and every number is below 256.
pub proof fn law_code_injective(a: Key, b: Key)
    ensures
        a.code() < 256,
        a.code() == b.code() ==> a == b,
{
}

} // verus!
