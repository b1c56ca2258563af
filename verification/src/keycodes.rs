//! Key codes: the tables that lead from a platform's keys to the codes used throughout.
//!
//! The codes are those of Linux; mouse buttons share their number space.

use vstd::prelude::*;
use vstd::string::*;
use crate::text;

verus! {

/// The keys that the keyboard hook on Windows reports.
#[derive(Debug, Clone, Copy, PartialEq, Eq, Structural)]
pub enum WinKey {
    KeyA,
    KeyB,
    KeyC,
    KeyD,
    KeyE,
    KeyF,
    KeyG,
    KeyH,
    KeyI,
    KeyJ,
    KeyK,
    KeyL,
    KeyM,
    KeyN,
    KeyO,
    KeyP,
    KeyQ,
    KeyR,
    KeyS,
    KeyT,
    KeyU,
    KeyV,
    KeyW,
    KeyX,
    KeyY,
    KeyZ,
    Num1,
    Num2,
    Num3,
    Num4,
    Num5,
    Num6,
    Num7,
    Num8,
    Num9,
    Num0,
    F1,
    F2,
    F3,
    F4,
    F5,
    F6,
    F7,
    F8,
    F9,
    F10,
    F11,
    F12,
    Escape,
    Return,
    Space,
    Tab,
    Backspace,
    UpArrow,
    DownArrow,
    LeftArrow,
    RightArrow,
    CapsLock,
    ShiftLeft,
    ShiftRight,
    ControlLeft,
    ControlRight,
    Alt,
    AltGr,
    MetaLeft,
    MetaRight,
    Minus,
    Equal,
    LeftBracket,
    RightBracket,
    SemiColon,
    Quote,
    BackSlash,
    Comma,
    Dot,
    Slash,
    BackQuote,
    Delete,
    Home,
    End,
    PageUp,
    PageDown,
    Insert,
    PrintScreen,
    ScrollLock,
    Pause,
    NumLock,
}

impl WinKey {
    /// The code of a key.
    pub open spec fn code_spec(self) -> u16 {
        match self {
            WinKey::KeyA => 30,
            WinKey::KeyB => 48,
            WinKey::KeyC => 46,
            WinKey::KeyD => 32,
            WinKey::KeyE => 18,
            WinKey::KeyF => 33,
            WinKey::KeyG => 34,
            WinKey::KeyH => 35,
            WinKey::KeyI => 23,
            WinKey::KeyJ => 36,
            WinKey::KeyK => 37,
            WinKey::KeyL => 38,
            WinKey::KeyM => 50,
            WinKey::KeyN => 49,
            WinKey::KeyO => 24,
            WinKey::KeyP => 25,
            WinKey::KeyQ => 16,
            WinKey::KeyR => 19,
            WinKey::KeyS => 31,
            WinKey::KeyT => 20,
            WinKey::KeyU => 22,
            WinKey::KeyV => 47,
            WinKey::KeyW => 17,
            WinKey::KeyX => 45,
            WinKey::KeyY => 21,
            WinKey::KeyZ => 44,
            WinKey::Num1 => 2,
            WinKey::Num2 => 3,
            WinKey::Num3 => 4,
            WinKey::Num4 => 5,
            WinKey::Num5 => 6,
            WinKey::Num6 => 7,
            WinKey::Num7 => 8,
            WinKey::Num8 => 9,
            WinKey::Num9 => 10,
            WinKey::Num0 => 11,
            WinKey::F1 => 59,
            WinKey::F2 => 60,
            WinKey::F3 => 61,
            WinKey::F4 => 62,
            WinKey::F5 => 63,
            WinKey::F6 => 64,
            WinKey::F7 => 65,
            WinKey::F8 => 66,
            WinKey::F9 => 67,
            WinKey::F10 => 68,
            WinKey::F11 => 87,
            WinKey::F12 => 88,
            WinKey::Escape => 1,
            WinKey::Return => 28,
            WinKey::Space => 57,
            WinKey::Tab => 15,
            WinKey::Backspace => 14,
            WinKey::UpArrow => 103,
            WinKey::DownArrow => 108,
            WinKey::LeftArrow => 105,
            WinKey::RightArrow => 106,
            WinKey::CapsLock => 58,
            WinKey::ShiftLeft => 42,
            WinKey::ShiftRight => 54,
            WinKey::ControlLeft => 29,
            WinKey::ControlRight => 97,
            WinKey::Alt => 56,
            WinKey::AltGr => 100,
            WinKey::MetaLeft => 125,
            WinKey::MetaRight => 126,
            WinKey::Minus => 12,
            WinKey::Equal => 13,
            WinKey::LeftBracket => 26,
            WinKey::RightBracket => 27,
            WinKey::SemiColon => 39,
            WinKey::Quote => 40,
            WinKey::BackSlash => 43,
            WinKey::Comma => 51,
            WinKey::Dot => 52,
            WinKey::Slash => 53,
            WinKey::BackQuote => 41,
            WinKey::Delete => 111,
            WinKey::Home => 102,
            WinKey::End => 107,
            WinKey::PageUp => 104,
            WinKey::PageDown => 109,
            WinKey::Insert => 110,
            WinKey::PrintScreen => 99,
            WinKey::ScrollLock => 70,
            WinKey::Pause => 119,
            WinKey::NumLock => 69,
        }
    }

    /// The name of a key.
    pub open spec fn name_spec(self) -> Seq<char> {
        match self {
            WinKey::KeyA => "KeyA"@,
            WinKey::KeyB => "KeyB"@,
            WinKey::KeyC => "KeyC"@,
            WinKey::KeyD => "KeyD"@,
            WinKey::KeyE => "KeyE"@,
            WinKey::KeyF => "KeyF"@,
            WinKey::KeyG => "KeyG"@,
            WinKey::KeyH => "KeyH"@,
            WinKey::KeyI => "KeyI"@,
            WinKey::KeyJ => "KeyJ"@,
            WinKey::KeyK => "KeyK"@,
            WinKey::KeyL => "KeyL"@,
            WinKey::KeyM => "KeyM"@,
            WinKey::KeyN => "KeyN"@,
            WinKey::KeyO => "KeyO"@,
            WinKey::KeyP => "KeyP"@,
            WinKey::KeyQ => "KeyQ"@,
            WinKey::KeyR => "KeyR"@,
            WinKey::KeyS => "KeyS"@,
            WinKey::KeyT => "KeyT"@,
            WinKey::KeyU => "KeyU"@,
            WinKey::KeyV => "KeyV"@,
            WinKey::KeyW => "KeyW"@,
            WinKey::KeyX => "KeyX"@,
            WinKey::KeyY => "KeyY"@,
            WinKey::KeyZ => "KeyZ"@,
            WinKey::Num1 => "Num1"@,
            WinKey::Num2 => "Num2"@,
            WinKey::Num3 => "Num3"@,
            WinKey::Num4 => "Num4"@,
            WinKey::Num5 => "Num5"@,
            WinKey::Num6 => "Num6"@,
            WinKey::Num7 => "Num7"@,
            WinKey::Num8 => "Num8"@,
            WinKey::Num9 => "Num9"@,
            WinKey::Num0 => "Num0"@,
            WinKey::F1 => "F1"@,
            WinKey::F2 => "F2"@,
            WinKey::F3 => "F3"@,
            WinKey::F4 => "F4"@,
            WinKey::F5 => "F5"@,
            WinKey::F6 => "F6"@,
            WinKey::F7 => "F7"@,
            WinKey::F8 => "F8"@,
            WinKey::F9 => "F9"@,
            WinKey::F10 => "F10"@,
            WinKey::F11 => "F11"@,
            WinKey::F12 => "F12"@,
            WinKey::Escape => "Escape"@,
            WinKey::Return => "Return"@,
            WinKey::Space => "Space"@,
            WinKey::Tab => "Tab"@,
            WinKey::Backspace => "Backspace"@,
            WinKey::UpArrow => "UpArrow"@,
            WinKey::DownArrow => "DownArrow"@,
            WinKey::LeftArrow => "LeftArrow"@,
            WinKey::RightArrow => "RightArrow"@,
            WinKey::CapsLock => "CapsLock"@,
            WinKey::ShiftLeft => "ShiftLeft"@,
            WinKey::ShiftRight => "ShiftRight"@,
            WinKey::ControlLeft => "ControlLeft"@,
            WinKey::ControlRight => "ControlRight"@,
            WinKey::Alt => "Alt"@,
            WinKey::AltGr => "AltGr"@,
            WinKey::MetaLeft => "MetaLeft"@,
            WinKey::MetaRight => "MetaRight"@,
            WinKey::Minus => "Minus"@,
            WinKey::Equal => "Equal"@,
            WinKey::LeftBracket => "LeftBracket"@,
            WinKey::RightBracket => "RightBracket"@,
            WinKey::SemiColon => "SemiColon"@,
            WinKey::Quote => "Quote"@,
            WinKey::BackSlash => "BackSlash"@,
            WinKey::Comma => "Comma"@,
            WinKey::Dot => "Dot"@,
            WinKey::Slash => "Slash"@,
            WinKey::BackQuote => "BackQuote"@,
            WinKey::Delete => "Delete"@,
            WinKey::Home => "Home"@,
            WinKey::End => "End"@,
            WinKey::PageUp => "PageUp"@,
            WinKey::PageDown => "PageDown"@,
            WinKey::Insert => "Insert"@,
            WinKey::PrintScreen => "PrintScreen"@,
            WinKey::ScrollLock => "ScrollLock"@,
            WinKey::Pause => "Pause"@,
            WinKey::NumLock => "NumLock"@,
        }
    }

    pub fn name(self) -> (r: &'static str)
        ensures
            r@ == self.name_spec(),
    {
        match self {
            WinKey::KeyA => "KeyA",
            WinKey::KeyB => "KeyB",
            WinKey::KeyC => "KeyC",
            WinKey::KeyD => "KeyD",
            WinKey::KeyE => "KeyE",
            WinKey::KeyF => "KeyF",
            WinKey::KeyG => "KeyG",
            WinKey::KeyH => "KeyH",
            WinKey::KeyI => "KeyI",
            WinKey::KeyJ => "KeyJ",
            WinKey::KeyK => "KeyK",
            WinKey::KeyL => "KeyL",
            WinKey::KeyM => "KeyM",
            WinKey::KeyN => "KeyN",
            WinKey::KeyO => "KeyO",
            WinKey::KeyP => "KeyP",
            WinKey::KeyQ => "KeyQ",
            WinKey::KeyR => "KeyR",
            WinKey::KeyS => "KeyS",
            WinKey::KeyT => "KeyT",
            WinKey::KeyU => "KeyU",
            WinKey::KeyV => "KeyV",
            WinKey::KeyW => "KeyW",
            WinKey::KeyX => "KeyX",
            WinKey::KeyY => "KeyY",
            WinKey::KeyZ => "KeyZ",
            WinKey::Num1 => "Num1",
            WinKey::Num2 => "Num2",
            WinKey::Num3 => "Num3",
            WinKey::Num4 => "Num4",
            WinKey::Num5 => "Num5",
            WinKey::Num6 => "Num6",
            WinKey::Num7 => "Num7",
            WinKey::Num8 => "Num8",
            WinKey::Num9 => "Num9",
            WinKey::Num0 => "Num0",
            WinKey::F1 => "F1",
            WinKey::F2 => "F2",
            WinKey::F3 => "F3",
            WinKey::F4 => "F4",
            WinKey::F5 => "F5",
            WinKey::F6 => "F6",
            WinKey::F7 => "F7",
            WinKey::F8 => "F8",
            WinKey::F9 => "F9",
            WinKey::F10 => "F10",
            WinKey::F11 => "F11",
            WinKey::F12 => "F12",
            WinKey::Escape => "Escape",
            WinKey::Return => "Return",
            WinKey::Space => "Space",
            WinKey::Tab => "Tab",
            WinKey::Backspace => "Backspace",
            WinKey::UpArrow => "UpArrow",
            WinKey::DownArrow => "DownArrow",
            WinKey::LeftArrow => "LeftArrow",
            WinKey::RightArrow => "RightArrow",
            WinKey::CapsLock => "CapsLock",
            WinKey::ShiftLeft => "ShiftLeft",
            WinKey::ShiftRight => "ShiftRight",
            WinKey::ControlLeft => "ControlLeft",
            WinKey::ControlRight => "ControlRight",
            WinKey::Alt => "Alt",
            WinKey::AltGr => "AltGr",
            WinKey::MetaLeft => "MetaLeft",
            WinKey::MetaRight => "MetaRight",
            WinKey::Minus => "Minus",
            WinKey::Equal => "Equal",
            WinKey::LeftBracket => "LeftBracket",
            WinKey::RightBracket => "RightBracket",
            WinKey::SemiColon => "SemiColon",
            WinKey::Quote => "Quote",
            WinKey::BackSlash => "BackSlash",
            WinKey::Comma => "Comma",
            WinKey::Dot => "Dot",
            WinKey::Slash => "Slash",
            WinKey::BackQuote => "BackQuote",
            WinKey::Delete => "Delete",
            WinKey::Home => "Home",
            WinKey::End => "End",
            WinKey::PageUp => "PageUp",
            WinKey::PageDown => "PageDown",
            WinKey::Insert => "Insert",
            WinKey::PrintScreen => "PrintScreen",
            WinKey::ScrollLock => "ScrollLock",
            WinKey::Pause => "Pause",
            WinKey::NumLock => "NumLock",
        }
    }
}

/// The code of a key; a key without a code comes in as none.
pub fn map_win_key(k: Option<WinKey>) -> (r: Option<u16>)
    ensures
        r == (match k {
            Some(k) => Some(k.code_spec()),
            None => None,
        }),
{
    match k {
        Some(k) => Some(code_of(k)),
        None => None,
    }
}

fn code_of(k: WinKey) -> (r: u16)
    ensures
        r == k.code_spec(),
{
    match k {
        WinKey::KeyA => 30,
        WinKey::KeyB => 48,
        WinKey::KeyC => 46,
        WinKey::KeyD => 32,
        WinKey::KeyE => 18,
        WinKey::KeyF => 33,
        WinKey::KeyG => 34,
        WinKey::KeyH => 35,
        WinKey::KeyI => 23,
        WinKey::KeyJ => 36,
        WinKey::KeyK => 37,
        WinKey::KeyL => 38,
        WinKey::KeyM => 50,
        WinKey::KeyN => 49,
        WinKey::KeyO => 24,
        WinKey::KeyP => 25,
        WinKey::KeyQ => 16,
        WinKey::KeyR => 19,
        WinKey::KeyS => 31,
        WinKey::KeyT => 20,
        WinKey::KeyU => 22,
        WinKey::KeyV => 47,
        WinKey::KeyW => 17,
        WinKey::KeyX => 45,
        WinKey::KeyY => 21,
        WinKey::KeyZ => 44,
        WinKey::Num1 => 2,
        WinKey::Num2 => 3,
        WinKey::Num3 => 4,
        WinKey::Num4 => 5,
        WinKey::Num5 => 6,
        WinKey::Num6 => 7,
        WinKey::Num7 => 8,
        WinKey::Num8 => 9,
        WinKey::Num9 => 10,
        WinKey::Num0 => 11,
        WinKey::F1 => 59,
        WinKey::F2 => 60,
        WinKey::F3 => 61,
        WinKey::F4 => 62,
        WinKey::F5 => 63,
        WinKey::F6 => 64,
        WinKey::F7 => 65,
        WinKey::F8 => 66,
        WinKey::F9 => 67,
        WinKey::F10 => 68,
        WinKey::F11 => 87,
        WinKey::F12 => 88,
        WinKey::Escape => 1,
        WinKey::Return => 28,
        WinKey::Space => 57,
        WinKey::Tab => 15,
        WinKey::Backspace => 14,
        WinKey::UpArrow => 103,
        WinKey::DownArrow => 108,
        WinKey::LeftArrow => 105,
        WinKey::RightArrow => 106,
        WinKey::CapsLock => 58,
        WinKey::ShiftLeft => 42,
        WinKey::ShiftRight => 54,
        WinKey::ControlLeft => 29,
        WinKey::ControlRight => 97,
        WinKey::Alt => 56,
        WinKey::AltGr => 100,
        WinKey::MetaLeft => 125,
        WinKey::MetaRight => 126,
        WinKey::Minus => 12,
        WinKey::Equal => 13,
        WinKey::LeftBracket => 26,
        WinKey::RightBracket => 27,
        WinKey::SemiColon => 39,
        WinKey::Quote => 40,
        WinKey::BackSlash => 43,
        WinKey::Comma => 51,
        WinKey::Dot => 52,
        WinKey::Slash => 53,
        WinKey::BackQuote => 41,
        WinKey::Delete => 111,
        WinKey::Home => 102,
        WinKey::End => 107,
        WinKey::PageUp => 104,
        WinKey::PageDown => 109,
        WinKey::Insert => 110,
        WinKey::PrintScreen => 99,
        WinKey::ScrollLock => 70,
        WinKey::Pause => 119,
        WinKey::NumLock => 69,
    }
}

/// Whether this is the key with a code, or that there is none.
pub open spec fn has_code(key: Option<WinKey>, code: u16) -> bool {
    match key {
        Some(k) => k.code_spec() == code,
        None => forall|k: WinKey| #[trigger] k.code_spec() != code,
    }
}

/// The key with a code.
pub fn key_with_code(code: u16) -> (r: Option<WinKey>)
    ensures
        has_code(r, code),
{
    match code {
        30 => Some(WinKey::KeyA),
        48 => Some(WinKey::KeyB),
        46 => Some(WinKey::KeyC),
        32 => Some(WinKey::KeyD),
        18 => Some(WinKey::KeyE),
        33 => Some(WinKey::KeyF),
        34 => Some(WinKey::KeyG),
        35 => Some(WinKey::KeyH),
        23 => Some(WinKey::KeyI),
        36 => Some(WinKey::KeyJ),
        37 => Some(WinKey::KeyK),
        38 => Some(WinKey::KeyL),
        50 => Some(WinKey::KeyM),
        49 => Some(WinKey::KeyN),
        24 => Some(WinKey::KeyO),
        25 => Some(WinKey::KeyP),
        16 => Some(WinKey::KeyQ),
        19 => Some(WinKey::KeyR),
        31 => Some(WinKey::KeyS),
        20 => Some(WinKey::KeyT),
        22 => Some(WinKey::KeyU),
        47 => Some(WinKey::KeyV),
        17 => Some(WinKey::KeyW),
        45 => Some(WinKey::KeyX),
        21 => Some(WinKey::KeyY),
        44 => Some(WinKey::KeyZ),
        2 => Some(WinKey::Num1),
        3 => Some(WinKey::Num2),
        4 => Some(WinKey::Num3),
        5 => Some(WinKey::Num4),
        6 => Some(WinKey::Num5),
        7 => Some(WinKey::Num6),
        8 => Some(WinKey::Num7),
        9 => Some(WinKey::Num8),
        10 => Some(WinKey::Num9),
        11 => Some(WinKey::Num0),
        59 => Some(WinKey::F1),
        60 => Some(WinKey::F2),
        61 => Some(WinKey::F3),
        62 => Some(WinKey::F4),
        63 => Some(WinKey::F5),
        64 => Some(WinKey::F6),
        65 => Some(WinKey::F7),
        66 => Some(WinKey::F8),
        67 => Some(WinKey::F9),
        68 => Some(WinKey::F10),
        87 => Some(WinKey::F11),
        88 => Some(WinKey::F12),
        1 => Some(WinKey::Escape),
        28 => Some(WinKey::Return),
        57 => Some(WinKey::Space),
        15 => Some(WinKey::Tab),
        14 => Some(WinKey::Backspace),
        103 => Some(WinKey::UpArrow),
        108 => Some(WinKey::DownArrow),
        105 => Some(WinKey::LeftArrow),
        106 => Some(WinKey::RightArrow),
        58 => Some(WinKey::CapsLock),
        42 => Some(WinKey::ShiftLeft),
        54 => Some(WinKey::ShiftRight),
        29 => Some(WinKey::ControlLeft),
        97 => Some(WinKey::ControlRight),
        56 => Some(WinKey::Alt),
        100 => Some(WinKey::AltGr),
        125 => Some(WinKey::MetaLeft),
        126 => Some(WinKey::MetaRight),
        12 => Some(WinKey::Minus),
        13 => Some(WinKey::Equal),
        26 => Some(WinKey::LeftBracket),
        27 => Some(WinKey::RightBracket),
        39 => Some(WinKey::SemiColon),
        40 => Some(WinKey::Quote),
        43 => Some(WinKey::BackSlash),
        51 => Some(WinKey::Comma),
        52 => Some(WinKey::Dot),
        53 => Some(WinKey::Slash),
        41 => Some(WinKey::BackQuote),
        111 => Some(WinKey::Delete),
        102 => Some(WinKey::Home),
        107 => Some(WinKey::End),
        104 => Some(WinKey::PageUp),
        109 => Some(WinKey::PageDown),
        110 => Some(WinKey::Insert),
        99 => Some(WinKey::PrintScreen),
        70 => Some(WinKey::ScrollLock),
        119 => Some(WinKey::Pause),
        69 => Some(WinKey::NumLock),
        _ => None,
    }
}

/// A code leads back to the key it came from.
pub proof fn codes_lead_back(k: WinKey, key: Option<WinKey>)
    requires
        has_code(key, k.code_spec()),
    ensures
        key == Some(k),
{
    match key {
        Some(other) => {
            codes_are_distinct(k, other);
        },
        None => {},
    }
}

/// No two keys have the same code.
pub proof fn codes_are_distinct(a: WinKey, b: WinKey)
    requires
        a.code_spec() == b.code_spec(),
    ensures
        a == b,
{
}

/// The mouse buttons that the hook on Windows reports.
#[derive(Debug, Clone, Copy, PartialEq, Eq, Structural)]
pub enum WinButton {
    Left,
    Right,
    Middle,
    /// Any other, by its number.
    Unknown(u8),
}

/// The code of a mouse button; those without a name follow the named ones.
pub fn map_win_button(b: WinButton) -> (r: u16)
    ensures
        r == button_code(b),
{
    match b {
        WinButton::Left => 272,
        WinButton::Right => 273,
        WinButton::Middle => 274,
        WinButton::Unknown(n) => 275 + n as u16,
    }
}

pub open spec fn button_code(b: WinButton) -> int {
    match b {
        WinButton::Left => 272,
        WinButton::Right => 273,
        WinButton::Middle => 274,
        WinButton::Unknown(n) => 275 + n,
    }
}

/// Buttons have codes of their own: no two buttons share one, and none is the code of a key.
pub proof fn buttons_are_distinct(a: WinButton, b: WinButton, k: WinKey)
    ensures
        button_code(a) == button_code(b) ==> a == b,
        button_code(a) != k.code_spec(),
{
}

/// The name of a code: that of its mouse button or key, else the number.
pub open spec fn win_name(code: u16, key: Option<WinKey>) -> Seq<char> {
    if code == 272 {
        "BTN_LEFT"@
    } else if code == 273 {
        "BTN_RIGHT"@
    } else if code == 274 {
        "BTN_MIDDLE"@
    } else {
        match key {
            Some(k) => k.name_spec(),
            None => "Key("@ + text::dec(code as nat) + ")"@,
        }
    }
}

/// The name of a code, as shown on Windows: what it is by the one key that has the code, or by
/// there being none.
pub open spec fn win_text(code: u16) -> Seq<char> {
    win_name(code, choose|key: Option<WinKey>| has_code(key, code))
}

/// The name of a code, as shown on Windows.
pub fn win_key_name(code: u16) -> (r: String)
    ensures
        r@ == win_text(code),
        exists|key: Option<WinKey>| #[trigger] has_code(key, code) && r@ == win_name(code, key),
{
    let key = key_with_code(code);
    proof {
        let chosen = choose|key: Option<WinKey>| has_code(key, code);
        assert(has_code(chosen, code));
        assert(chosen == key) by {
            match (chosen, key) {
                (Some(a), _) => {
                    codes_lead_back(a, key);
                },
                (_, Some(b)) => {
                    codes_lead_back(b, chosen);
                },
                _ => {},
            }
        }
    }
    let r = if code == 272 {
        "BTN_LEFT".to_owned()
    } else if code == 273 {
        "BTN_RIGHT".to_owned()
    } else if code == 274 {
        "BTN_MIDDLE".to_owned()
    } else {
        match key {
            Some(k) => k.name().to_owned(),
            None => {
                let mut s = String::new();
                s.append("Key(");
                text::push_dec(&mut s, code as u64);
                s.append(")");
                assert(s@ =~= "Key("@ + text::dec(code as nat) + ")"@);
                s
            },
        }
    };
    assert(has_code(key, code) && r@ == win_name(code, key));
    r
}

/// The code for a key that the window reports, by the name that `egui` gives the key.
pub open spec fn window_code(name: Seq<char>) -> Option<u16> {
    if name == "A"@ {
        Some(30u16)
    } else if name == "B"@ {
        Some(48u16)
    } else if name == "C"@ {
        Some(46u16)
    } else if name == "D"@ {
        Some(32u16)
    } else if name == "E"@ {
        Some(18u16)
    } else if name == "F"@ {
        Some(33u16)
    } else if name == "G"@ {
        Some(34u16)
    } else if name == "H"@ {
        Some(35u16)
    } else if name == "I"@ {
        Some(23u16)
    } else if name == "J"@ {
        Some(36u16)
    } else if name == "K"@ {
        Some(37u16)
    } else if name == "L"@ {
        Some(38u16)
    } else if name == "M"@ {
        Some(50u16)
    } else if name == "N"@ {
        Some(49u16)
    } else if name == "O"@ {
        Some(24u16)
    } else if name == "P"@ {
        Some(25u16)
    } else if name == "Q"@ {
        Some(16u16)
    } else if name == "R"@ {
        Some(19u16)
    } else if name == "S"@ {
        Some(31u16)
    } else if name == "T"@ {
        Some(20u16)
    } else if name == "U"@ {
        Some(22u16)
    } else if name == "V"@ {
        Some(47u16)
    } else if name == "W"@ {
        Some(17u16)
    } else if name == "X"@ {
        Some(45u16)
    } else if name == "Y"@ {
        Some(21u16)
    } else if name == "Z"@ {
        Some(44u16)
    } else if name == "Num1"@ {
        Some(2u16)
    } else if name == "Num2"@ {
        Some(3u16)
    } else if name == "Num3"@ {
        Some(4u16)
    } else if name == "Num4"@ {
        Some(5u16)
    } else if name == "Num5"@ {
        Some(6u16)
    } else if name == "Num6"@ {
        Some(7u16)
    } else if name == "Num7"@ {
        Some(8u16)
    } else if name == "Num8"@ {
        Some(9u16)
    } else if name == "Num9"@ {
        Some(10u16)
    } else if name == "Num0"@ {
        Some(11u16)
    } else if name == "F1"@ {
        Some(59u16)
    } else if name == "F2"@ {
        Some(60u16)
    } else if name == "F3"@ {
        Some(61u16)
    } else if name == "F4"@ {
        Some(62u16)
    } else if name == "F5"@ {
        Some(63u16)
    } else if name == "F6"@ {
        Some(64u16)
    } else if name == "F7"@ {
        Some(65u16)
    } else if name == "F8"@ {
        Some(66u16)
    } else if name == "F9"@ {
        Some(67u16)
    } else if name == "F10"@ {
        Some(68u16)
    } else if name == "F11"@ {
        Some(87u16)
    } else if name == "F12"@ {
        Some(88u16)
    } else if name == "F13"@ {
        Some(183u16)
    } else if name == "F14"@ {
        Some(184u16)
    } else if name == "F15"@ {
        Some(185u16)
    } else if name == "F16"@ {
        Some(186u16)
    } else if name == "F17"@ {
        Some(187u16)
    } else if name == "F18"@ {
        Some(188u16)
    } else if name == "F19"@ {
        Some(189u16)
    } else if name == "F20"@ {
        Some(190u16)
    } else if name == "F21"@ {
        Some(191u16)
    } else if name == "F22"@ {
        Some(192u16)
    } else if name == "F23"@ {
        Some(193u16)
    } else if name == "F24"@ {
        Some(194u16)
    } else if name == "Escape"@ {
        Some(1u16)
    } else if name == "Tab"@ {
        Some(15u16)
    } else if name == "Backspace"@ {
        Some(14u16)
    } else if name == "Enter"@ {
        Some(28u16)
    } else if name == "Space"@ {
        Some(57u16)
    } else if name == "Insert"@ {
        Some(110u16)
    } else if name == "Delete"@ {
        Some(111u16)
    } else if name == "Home"@ {
        Some(102u16)
    } else if name == "End"@ {
        Some(107u16)
    } else if name == "PageUp"@ {
        Some(104u16)
    } else if name == "PageDown"@ {
        Some(109u16)
    } else if name == "ArrowUp"@ {
        Some(103u16)
    } else if name == "ArrowDown"@ {
        Some(108u16)
    } else if name == "ArrowLeft"@ {
        Some(105u16)
    } else if name == "ArrowRight"@ {
        Some(106u16)
    } else if name == "ShiftLeft"@ {
        Some(42u16)
    } else if name == "ShiftRight"@ {
        Some(54u16)
    } else if name == "ControlLeft"@ {
        Some(29u16)
    } else if name == "ControlRight"@ {
        Some(97u16)
    } else if name == "AltLeft"@ {
        Some(56u16)
    } else if name == "AltRight"@ {
        Some(100u16)
    } else if name == "SuperLeft"@ {
        Some(125u16)
    } else if name == "SuperRight"@ {
        Some(126u16)
    } else if name == "IntlBackslash"@ {
        Some(86u16)
    } else if name == "BrowserBack"@ {
        Some(158u16)
    } else if name == "Semicolon"@ {
        Some(39u16)
    } else if name == "Colon"@ {
        Some(39u16)
    } else if name == "Quote"@ {
        Some(40u16)
    } else if name == "Comma"@ {
        Some(51u16)
    } else if name == "Minus"@ {
        Some(12u16)
    } else if name == "Period"@ {
        Some(52u16)
    } else if name == "Slash"@ {
        Some(53u16)
    } else if name == "Questionmark"@ {
        Some(53u16)
    } else if name == "Backslash"@ {
        Some(43u16)
    } else if name == "Pipe"@ {
        Some(43u16)
    } else if name == "Equals"@ {
        Some(13u16)
    } else if name == "Plus"@ {
        Some(13u16)
    } else if name == "OpenBracket"@ {
        Some(26u16)
    } else if name == "OpenCurlyBracket"@ {
        Some(26u16)
    } else if name == "CloseBracket"@ {
        Some(27u16)
    } else if name == "CloseCurlyBracket"@ {
        Some(27u16)
    } else if name == "Backtick"@ {
        Some(41u16)
    } else if name == "Exclamationmark"@ {
        Some(2u16)
    } else {
        None
    }
}

/// The code for a key that the window reports, by the name that `egui` gives the key. Symbols
/// stand for the key that they are printed on.
pub fn egui_key_code(name: &str) -> (r: Option<u16>)
    ensures
        r == window_code(name@),
{
    if text::same_text(name, "A") {
        return Some(30);
    }
    if text::same_text(name, "B") {
        return Some(48);
    }
    if text::same_text(name, "C") {
        return Some(46);
    }
    if text::same_text(name, "D") {
        return Some(32);
    }
    if text::same_text(name, "E") {
        return Some(18);
    }
    if text::same_text(name, "F") {
        return Some(33);
    }
    if text::same_text(name, "G") {
        return Some(34);
    }
    if text::same_text(name, "H") {
        return Some(35);
    }
    if text::same_text(name, "I") {
        return Some(23);
    }
    if text::same_text(name, "J") {
        return Some(36);
    }
    if text::same_text(name, "K") {
        return Some(37);
    }
    if text::same_text(name, "L") {
        return Some(38);
    }
    if text::same_text(name, "M") {
        return Some(50);
    }
    if text::same_text(name, "N") {
        return Some(49);
    }
    if text::same_text(name, "O") {
        return Some(24);
    }
    if text::same_text(name, "P") {
        return Some(25);
    }
    if text::same_text(name, "Q") {
        return Some(16);
    }
    if text::same_text(name, "R") {
        return Some(19);
    }
    if text::same_text(name, "S") {
        return Some(31);
    }
    if text::same_text(name, "T") {
        return Some(20);
    }
    if text::same_text(name, "U") {
        return Some(22);
    }
    if text::same_text(name, "V") {
        return Some(47);
    }
    if text::same_text(name, "W") {
        return Some(17);
    }
    if text::same_text(name, "X") {
        return Some(45);
    }
    if text::same_text(name, "Y") {
        return Some(21);
    }
    if text::same_text(name, "Z") {
        return Some(44);
    }
    if text::same_text(name, "Num1") {
        return Some(2);
    }
    if text::same_text(name, "Num2") {
        return Some(3);
    }
    if text::same_text(name, "Num3") {
        return Some(4);
    }
    if text::same_text(name, "Num4") {
        return Some(5);
    }
    if text::same_text(name, "Num5") {
        return Some(6);
    }
    if text::same_text(name, "Num6") {
        return Some(7);
    }
    if text::same_text(name, "Num7") {
        return Some(8);
    }
    if text::same_text(name, "Num8") {
        return Some(9);
    }
    if text::same_text(name, "Num9") {
        return Some(10);
    }
    if text::same_text(name, "Num0") {
        return Some(11);
    }
    if text::same_text(name, "F1") {
        return Some(59);
    }
    if text::same_text(name, "F2") {
        return Some(60);
    }
    if text::same_text(name, "F3") {
        return Some(61);
    }
    if text::same_text(name, "F4") {
        return Some(62);
    }
    if text::same_text(name, "F5") {
        return Some(63);
    }
    if text::same_text(name, "F6") {
        return Some(64);
    }
    if text::same_text(name, "F7") {
        return Some(65);
    }
    if text::same_text(name, "F8") {
        return Some(66);
    }
    if text::same_text(name, "F9") {
        return Some(67);
    }
    if text::same_text(name, "F10") {
        return Some(68);
    }
    if text::same_text(name, "F11") {
        return Some(87);
    }
    if text::same_text(name, "F12") {
        return Some(88);
    }
    if text::same_text(name, "F13") {
        return Some(183);
    }
    if text::same_text(name, "F14") {
        return Some(184);
    }
    if text::same_text(name, "F15") {
        return Some(185);
    }
    if text::same_text(name, "F16") {
        return Some(186);
    }
    if text::same_text(name, "F17") {
        return Some(187);
    }
    if text::same_text(name, "F18") {
        return Some(188);
    }
    if text::same_text(name, "F19") {
        return Some(189);
    }
    if text::same_text(name, "F20") {
        return Some(190);
    }
    if text::same_text(name, "F21") {
        return Some(191);
    }
    if text::same_text(name, "F22") {
        return Some(192);
    }
    if text::same_text(name, "F23") {
        return Some(193);
    }
    if text::same_text(name, "F24") {
        return Some(194);
    }
    if text::same_text(name, "Escape") {
        return Some(1);
    }
    if text::same_text(name, "Tab") {
        return Some(15);
    }
    if text::same_text(name, "Backspace") {
        return Some(14);
    }
    if text::same_text(name, "Enter") {
        return Some(28);
    }
    if text::same_text(name, "Space") {
        return Some(57);
    }
    if text::same_text(name, "Insert") {
        return Some(110);
    }
    if text::same_text(name, "Delete") {
        return Some(111);
    }
    if text::same_text(name, "Home") {
        return Some(102);
    }
    if text::same_text(name, "End") {
        return Some(107);
    }
    if text::same_text(name, "PageUp") {
        return Some(104);
    }
    if text::same_text(name, "PageDown") {
        return Some(109);
    }
    if text::same_text(name, "ArrowUp") {
        return Some(103);
    }
    if text::same_text(name, "ArrowDown") {
        return Some(108);
    }
    if text::same_text(name, "ArrowLeft") {
        return Some(105);
    }
    if text::same_text(name, "ArrowRight") {
        return Some(106);
    }
    if text::same_text(name, "ShiftLeft") {
        return Some(42);
    }
    if text::same_text(name, "ShiftRight") {
        return Some(54);
    }
    if text::same_text(name, "ControlLeft") {
        return Some(29);
    }
    if text::same_text(name, "ControlRight") {
        return Some(97);
    }
    if text::same_text(name, "AltLeft") {
        return Some(56);
    }
    if text::same_text(name, "AltRight") {
        return Some(100);
    }
    if text::same_text(name, "SuperLeft") {
        return Some(125);
    }
    if text::same_text(name, "SuperRight") {
        return Some(126);
    }
    if text::same_text(name, "IntlBackslash") {
        return Some(86);
    }
    if text::same_text(name, "BrowserBack") {
        return Some(158);
    }
    if text::same_text(name, "Semicolon") {
        return Some(39);
    }
    if text::same_text(name, "Colon") {
        return Some(39);
    }
    if text::same_text(name, "Quote") {
        return Some(40);
    }
    if text::same_text(name, "Comma") {
        return Some(51);
    }
    if text::same_text(name, "Minus") {
        return Some(12);
    }
    if text::same_text(name, "Period") {
        return Some(52);
    }
    if text::same_text(name, "Slash") {
        return Some(53);
    }
    if text::same_text(name, "Questionmark") {
        return Some(53);
    }
    if text::same_text(name, "Backslash") {
        return Some(43);
    }
    if text::same_text(name, "Pipe") {
        return Some(43);
    }
    if text::same_text(name, "Equals") {
        return Some(13);
    }
    if text::same_text(name, "Plus") {
        return Some(13);
    }
    if text::same_text(name, "OpenBracket") {
        return Some(26);
    }
    if text::same_text(name, "OpenCurlyBracket") {
        return Some(26);
    }
    if text::same_text(name, "CloseBracket") {
        return Some(27);
    }
    if text::same_text(name, "CloseCurlyBracket") {
        return Some(27);
    }
    if text::same_text(name, "Backtick") {
        return Some(41);
    }
    if text::same_text(name, "Exclamationmark") {
        return Some(2);
    }
    None
}

/// A key has one code, whichever way it is reported. What the keyboard hook calls `KeyA` and the
/// window calls `A` is one key, and so for all letters; the other keys that both call by the same
/// name are the same too.
#[verifier::spinoff_prover]
pub proof fn one_key_one_code(k: WinKey)
    ensures
        text::stands_at(k.name_spec(), "Key"@, 0) ==> window_code(k.name_spec().skip(3)) == Some(
            k.code_spec(),
        ),
        window_code(k.name_spec()) is Some ==> window_code(k.name_spec()) == Some(
            k.code_spec(),
        ),
{
    reveal_strlit("Key");
    assert("Key"@.len() == 3 && "Key"@[0] == 'K' && "Key"@[1] == 'e' && "Key"@[2] == 'y');
    reveal_strlit("A");
    assert("A"@.len() == 1 && "A"@[0] == 'A');
    reveal_strlit("Alt");
    assert("Alt"@.len() == 3 && "Alt"@[0] == 'A' && "Alt"@[1] == 'l' && "Alt"@[2] == 't');
    reveal_strlit("AltGr");
    assert("AltGr"@.len() == 5 && "AltGr"@[0] == 'A' && "AltGr"@[1] == 'l' && "AltGr"@[2] == 't'
        && "AltGr"@[3] == 'G' && "AltGr"@[4] == 'r');
    reveal_strlit("AltLeft");
    assert("AltLeft"@.len() == 7 && "AltLeft"@[0] == 'A' && "AltLeft"@[1] == 'l'
        && "AltLeft"@[2] == 't' && "AltLeft"@[3] == 'L' && "AltLeft"@[4] == 'e'
        && "AltLeft"@[5] == 'f' && "AltLeft"@[6] == 't');
    reveal_strlit("AltRight");
    assert("AltRight"@.len() == 8 && "AltRight"@[0] == 'A' && "AltRight"@[1] == 'l'
        && "AltRight"@[2] == 't' && "AltRight"@[3] == 'R' && "AltRight"@[4] == 'i'
        && "AltRight"@[5] == 'g' && "AltRight"@[6] == 'h' && "AltRight"@[7] == 't');
    reveal_strlit("ArrowDown");
    assert("ArrowDown"@.len() == 9 && "ArrowDown"@[0] == 'A' && "ArrowDown"@[1] == 'r'
        && "ArrowDown"@[2] == 'r' && "ArrowDown"@[3] == 'o' && "ArrowDown"@[4] == 'w'
        && "ArrowDown"@[5] == 'D' && "ArrowDown"@[6] == 'o' && "ArrowDown"@[7] == 'w'
        && "ArrowDown"@[8] == 'n');
    reveal_strlit("ArrowLeft");
    assert("ArrowLeft"@.len() == 9 && "ArrowLeft"@[0] == 'A' && "ArrowLeft"@[1] == 'r'
        && "ArrowLeft"@[2] == 'r' && "ArrowLeft"@[3] == 'o' && "ArrowLeft"@[4] == 'w'
        && "ArrowLeft"@[5] == 'L' && "ArrowLeft"@[6] == 'e' && "ArrowLeft"@[7] == 'f'
        && "ArrowLeft"@[8] == 't');
    reveal_strlit("ArrowRight");
    assert("ArrowRight"@.len() == 10 && "ArrowRight"@[0] == 'A' && "ArrowRight"@[1] == 'r'
        && "ArrowRight"@[2] == 'r' && "ArrowRight"@[3] == 'o' && "ArrowRight"@[4] == 'w'
        && "ArrowRight"@[5] == 'R' && "ArrowRight"@[6] == 'i' && "ArrowRight"@[7] == 'g'
        && "ArrowRight"@[8] == 'h' && "ArrowRight"@[9] == 't');
    reveal_strlit("ArrowUp");
    assert("ArrowUp"@.len() == 7 && "ArrowUp"@[0] == 'A' && "ArrowUp"@[1] == 'r'
        && "ArrowUp"@[2] == 'r' && "ArrowUp"@[3] == 'o' && "ArrowUp"@[4] == 'w'
        && "ArrowUp"@[5] == 'U' && "ArrowUp"@[6] == 'p');
    reveal_strlit("B");
    assert("B"@.len() == 1 && "B"@[0] == 'B');
    reveal_strlit("BackQuote");
    assert("BackQuote"@.len() == 9 && "BackQuote"@[0] == 'B' && "BackQuote"@[1] == 'a'
        && "BackQuote"@[2] == 'c' && "BackQuote"@[3] == 'k' && "BackQuote"@[4] == 'Q'
        && "BackQuote"@[5] == 'u' && "BackQuote"@[6] == 'o' && "BackQuote"@[7] == 't'
        && "BackQuote"@[8] == 'e');
    reveal_strlit("BackSlash");
    assert("BackSlash"@.len() == 9 && "BackSlash"@[0] == 'B' && "BackSlash"@[1] == 'a'
        && "BackSlash"@[2] == 'c' && "BackSlash"@[3] == 'k' && "BackSlash"@[4] == 'S'
        && "BackSlash"@[5] == 'l' && "BackSlash"@[6] == 'a' && "BackSlash"@[7] == 's'
        && "BackSlash"@[8] == 'h');
    reveal_strlit("Backslash");
    assert("Backslash"@.len() == 9 && "Backslash"@[0] == 'B' && "Backslash"@[1] == 'a'
        && "Backslash"@[2] == 'c' && "Backslash"@[3] == 'k' && "Backslash"@[4] == 's'
        && "Backslash"@[5] == 'l' && "Backslash"@[6] == 'a' && "Backslash"@[7] == 's'
        && "Backslash"@[8] == 'h');
    reveal_strlit("Backspace");
    assert("Backspace"@.len() == 9 && "Backspace"@[0] == 'B' && "Backspace"@[1] == 'a'
        && "Backspace"@[2] == 'c' && "Backspace"@[3] == 'k' && "Backspace"@[4] == 's'
        && "Backspace"@[5] == 'p' && "Backspace"@[6] == 'a' && "Backspace"@[7] == 'c'
        && "Backspace"@[8] == 'e');
    reveal_strlit("Backtick");
    assert("Backtick"@.len() == 8 && "Backtick"@[0] == 'B' && "Backtick"@[1] == 'a'
        && "Backtick"@[2] == 'c' && "Backtick"@[3] == 'k' && "Backtick"@[4] == 't'
        && "Backtick"@[5] == 'i' && "Backtick"@[6] == 'c' && "Backtick"@[7] == 'k');
    reveal_strlit("BrowserBack");
    assert("BrowserBack"@.len() == 11 && "BrowserBack"@[0] == 'B' && "BrowserBack"@[1] == 'r'
        && "BrowserBack"@[2] == 'o' && "BrowserBack"@[3] == 'w' && "BrowserBack"@[4] == 's'
        && "BrowserBack"@[5] == 'e' && "BrowserBack"@[6] == 'r' && "BrowserBack"@[7] == 'B'
        && "BrowserBack"@[8] == 'a' && "BrowserBack"@[9] == 'c' && "BrowserBack"@[10] == 'k');
    reveal_strlit("C");
    assert("C"@.len() == 1 && "C"@[0] == 'C');
    reveal_strlit("CapsLock");
    assert("CapsLock"@.len() == 8 && "CapsLock"@[0] == 'C' && "CapsLock"@[1] == 'a'
        && "CapsLock"@[2] == 'p' && "CapsLock"@[3] == 's' && "CapsLock"@[4] == 'L'
        && "CapsLock"@[5] == 'o' && "CapsLock"@[6] == 'c' && "CapsLock"@[7] == 'k');
    reveal_strlit("CloseBracket");
    assert("CloseBracket"@.len() == 12 && "CloseBracket"@[0] == 'C' && "CloseBracket"@[1] == 'l'
        && "CloseBracket"@[2] == 'o' && "CloseBracket"@[3] == 's' && "CloseBracket"@[4] == 'e'
        && "CloseBracket"@[5] == 'B' && "CloseBracket"@[6] == 'r' && "CloseBracket"@[7] == 'a'
        && "CloseBracket"@[8] == 'c' && "CloseBracket"@[9] == 'k' && "CloseBracket"@[10] == 'e'
        && "CloseBracket"@[11] == 't');
    reveal_strlit("CloseCurlyBracket");
    assert("CloseCurlyBracket"@.len() == 17 && "CloseCurlyBracket"@[0] == 'C'
        && "CloseCurlyBracket"@[1] == 'l' && "CloseCurlyBracket"@[2] == 'o'
        && "CloseCurlyBracket"@[3] == 's' && "CloseCurlyBracket"@[4] == 'e'
        && "CloseCurlyBracket"@[5] == 'C' && "CloseCurlyBracket"@[6] == 'u'
        && "CloseCurlyBracket"@[7] == 'r' && "CloseCurlyBracket"@[8] == 'l'
        && "CloseCurlyBracket"@[9] == 'y' && "CloseCurlyBracket"@[10] == 'B'
        && "CloseCurlyBracket"@[11] == 'r' && "CloseCurlyBracket"@[12] == 'a'
        && "CloseCurlyBracket"@[13] == 'c' && "CloseCurlyBracket"@[14] == 'k'
        && "CloseCurlyBracket"@[15] == 'e' && "CloseCurlyBracket"@[16] == 't');
    reveal_strlit("Colon");
    assert("Colon"@.len() == 5 && "Colon"@[0] == 'C' && "Colon"@[1] == 'o' && "Colon"@[2] == 'l'
        && "Colon"@[3] == 'o' && "Colon"@[4] == 'n');
    reveal_strlit("Comma");
    assert("Comma"@.len() == 5 && "Comma"@[0] == 'C' && "Comma"@[1] == 'o' && "Comma"@[2] == 'm'
        && "Comma"@[3] == 'm' && "Comma"@[4] == 'a');
    reveal_strlit("ControlLeft");
    assert("ControlLeft"@.len() == 11 && "ControlLeft"@[0] == 'C' && "ControlLeft"@[1] == 'o'
        && "ControlLeft"@[2] == 'n' && "ControlLeft"@[3] == 't' && "ControlLeft"@[4] == 'r'
        && "ControlLeft"@[5] == 'o' && "ControlLeft"@[6] == 'l' && "ControlLeft"@[7] == 'L'
        && "ControlLeft"@[8] == 'e' && "ControlLeft"@[9] == 'f' && "ControlLeft"@[10] == 't');
    reveal_strlit("ControlRight");
    assert("ControlRight"@.len() == 12 && "ControlRight"@[0] == 'C' && "ControlRight"@[1] == 'o'
        && "ControlRight"@[2] == 'n' && "ControlRight"@[3] == 't' && "ControlRight"@[4] == 'r'
        && "ControlRight"@[5] == 'o' && "ControlRight"@[6] == 'l' && "ControlRight"@[7] == 'R'
        && "ControlRight"@[8] == 'i' && "ControlRight"@[9] == 'g' && "ControlRight"@[10] == 'h'
        && "ControlRight"@[11] == 't');
    reveal_strlit("D");
    assert("D"@.len() == 1 && "D"@[0] == 'D');
    reveal_strlit("Delete");
    assert("Delete"@.len() == 6 && "Delete"@[0] == 'D' && "Delete"@[1] == 'e'
        && "Delete"@[2] == 'l' && "Delete"@[3] == 'e' && "Delete"@[4] == 't'
        && "Delete"@[5] == 'e');
    reveal_strlit("Dot");
    assert("Dot"@.len() == 3 && "Dot"@[0] == 'D' && "Dot"@[1] == 'o' && "Dot"@[2] == 't');
    reveal_strlit("DownArrow");
    assert("DownArrow"@.len() == 9 && "DownArrow"@[0] == 'D' && "DownArrow"@[1] == 'o'
        && "DownArrow"@[2] == 'w' && "DownArrow"@[3] == 'n' && "DownArrow"@[4] == 'A'
        && "DownArrow"@[5] == 'r' && "DownArrow"@[6] == 'r' && "DownArrow"@[7] == 'o'
        && "DownArrow"@[8] == 'w');
    reveal_strlit("E");
    assert("E"@.len() == 1 && "E"@[0] == 'E');
    reveal_strlit("End");
    assert("End"@.len() == 3 && "End"@[0] == 'E' && "End"@[1] == 'n' && "End"@[2] == 'd');
    reveal_strlit("Enter");
    assert("Enter"@.len() == 5 && "Enter"@[0] == 'E' && "Enter"@[1] == 'n' && "Enter"@[2] == 't'
        && "Enter"@[3] == 'e' && "Enter"@[4] == 'r');
    reveal_strlit("Equal");
    assert("Equal"@.len() == 5 && "Equal"@[0] == 'E' && "Equal"@[1] == 'q' && "Equal"@[2] == 'u'
        && "Equal"@[3] == 'a' && "Equal"@[4] == 'l');
    reveal_strlit("Equals");
    assert("Equals"@.len() == 6 && "Equals"@[0] == 'E' && "Equals"@[1] == 'q'
        && "Equals"@[2] == 'u' && "Equals"@[3] == 'a' && "Equals"@[4] == 'l'
        && "Equals"@[5] == 's');
    reveal_strlit("Escape");
    assert("Escape"@.len() == 6 && "Escape"@[0] == 'E' && "Escape"@[1] == 's'
        && "Escape"@[2] == 'c' && "Escape"@[3] == 'a' && "Escape"@[4] == 'p'
        && "Escape"@[5] == 'e');
    reveal_strlit("Exclamationmark");
    assert("Exclamationmark"@.len() == 15 && "Exclamationmark"@[0] == 'E'
        && "Exclamationmark"@[1] == 'x' && "Exclamationmark"@[2] == 'c'
        && "Exclamationmark"@[3] == 'l' && "Exclamationmark"@[4] == 'a'
        && "Exclamationmark"@[5] == 'm' && "Exclamationmark"@[6] == 'a'
        && "Exclamationmark"@[7] == 't' && "Exclamationmark"@[8] == 'i'
        && "Exclamationmark"@[9] == 'o' && "Exclamationmark"@[10] == 'n'
        && "Exclamationmark"@[11] == 'm' && "Exclamationmark"@[12] == 'a'
        && "Exclamationmark"@[13] == 'r' && "Exclamationmark"@[14] == 'k');
    reveal_strlit("F");
    assert("F"@.len() == 1 && "F"@[0] == 'F');
    reveal_strlit("F1");
    assert("F1"@.len() == 2 && "F1"@[0] == 'F' && "F1"@[1] == '1');
    reveal_strlit("F10");
    assert("F10"@.len() == 3 && "F10"@[0] == 'F' && "F10"@[1] == '1' && "F10"@[2] == '0');
    reveal_strlit("F11");
    assert("F11"@.len() == 3 && "F11"@[0] == 'F' && "F11"@[1] == '1' && "F11"@[2] == '1');
    reveal_strlit("F12");
    assert("F12"@.len() == 3 && "F12"@[0] == 'F' && "F12"@[1] == '1' && "F12"@[2] == '2');
    reveal_strlit("F13");
    assert("F13"@.len() == 3 && "F13"@[0] == 'F' && "F13"@[1] == '1' && "F13"@[2] == '3');
    reveal_strlit("F14");
    assert("F14"@.len() == 3 && "F14"@[0] == 'F' && "F14"@[1] == '1' && "F14"@[2] == '4');
    reveal_strlit("F15");
    assert("F15"@.len() == 3 && "F15"@[0] == 'F' && "F15"@[1] == '1' && "F15"@[2] == '5');
    reveal_strlit("F16");
    assert("F16"@.len() == 3 && "F16"@[0] == 'F' && "F16"@[1] == '1' && "F16"@[2] == '6');
    reveal_strlit("F17");
    assert("F17"@.len() == 3 && "F17"@[0] == 'F' && "F17"@[1] == '1' && "F17"@[2] == '7');
    reveal_strlit("F18");
    assert("F18"@.len() == 3 && "F18"@[0] == 'F' && "F18"@[1] == '1' && "F18"@[2] == '8');
    reveal_strlit("F19");
    assert("F19"@.len() == 3 && "F19"@[0] == 'F' && "F19"@[1] == '1' && "F19"@[2] == '9');
    reveal_strlit("F2");
    assert("F2"@.len() == 2 && "F2"@[0] == 'F' && "F2"@[1] == '2');
    reveal_strlit("F20");
    assert("F20"@.len() == 3 && "F20"@[0] == 'F' && "F20"@[1] == '2' && "F20"@[2] == '0');
    reveal_strlit("F21");
    assert("F21"@.len() == 3 && "F21"@[0] == 'F' && "F21"@[1] == '2' && "F21"@[2] == '1');
    reveal_strlit("F22");
    assert("F22"@.len() == 3 && "F22"@[0] == 'F' && "F22"@[1] == '2' && "F22"@[2] == '2');
    reveal_strlit("F23");
    assert("F23"@.len() == 3 && "F23"@[0] == 'F' && "F23"@[1] == '2' && "F23"@[2] == '3');
    reveal_strlit("F24");
    assert("F24"@.len() == 3 && "F24"@[0] == 'F' && "F24"@[1] == '2' && "F24"@[2] == '4');
    reveal_strlit("F3");
    assert("F3"@.len() == 2 && "F3"@[0] == 'F' && "F3"@[1] == '3');
    reveal_strlit("F4");
    assert("F4"@.len() == 2 && "F4"@[0] == 'F' && "F4"@[1] == '4');
    reveal_strlit("F5");
    assert("F5"@.len() == 2 && "F5"@[0] == 'F' && "F5"@[1] == '5');
    reveal_strlit("F6");
    assert("F6"@.len() == 2 && "F6"@[0] == 'F' && "F6"@[1] == '6');
    reveal_strlit("F7");
    assert("F7"@.len() == 2 && "F7"@[0] == 'F' && "F7"@[1] == '7');
    reveal_strlit("F8");
    assert("F8"@.len() == 2 && "F8"@[0] == 'F' && "F8"@[1] == '8');
    reveal_strlit("F9");
    assert("F9"@.len() == 2 && "F9"@[0] == 'F' && "F9"@[1] == '9');
    reveal_strlit("G");
    assert("G"@.len() == 1 && "G"@[0] == 'G');
    reveal_strlit("H");
    assert("H"@.len() == 1 && "H"@[0] == 'H');
    reveal_strlit("Home");
    assert("Home"@.len() == 4 && "Home"@[0] == 'H' && "Home"@[1] == 'o' && "Home"@[2] == 'm'
        && "Home"@[3] == 'e');
    reveal_strlit("I");
    assert("I"@.len() == 1 && "I"@[0] == 'I');
    reveal_strlit("Insert");
    assert("Insert"@.len() == 6 && "Insert"@[0] == 'I' && "Insert"@[1] == 'n'
        && "Insert"@[2] == 's' && "Insert"@[3] == 'e' && "Insert"@[4] == 'r'
        && "Insert"@[5] == 't');
    reveal_strlit("IntlBackslash");
    assert("IntlBackslash"@.len() == 13 && "IntlBackslash"@[0] == 'I'
        && "IntlBackslash"@[1] == 'n' && "IntlBackslash"@[2] == 't' && "IntlBackslash"@[3] == 'l'
        && "IntlBackslash"@[4] == 'B' && "IntlBackslash"@[5] == 'a' && "IntlBackslash"@[6] == 'c'
        && "IntlBackslash"@[7] == 'k' && "IntlBackslash"@[8] == 's' && "IntlBackslash"@[9] == 'l'
        && "IntlBackslash"@[10] == 'a' && "IntlBackslash"@[11] == 's'
        && "IntlBackslash"@[12] == 'h');
    reveal_strlit("J");
    assert("J"@.len() == 1 && "J"@[0] == 'J');
    reveal_strlit("K");
    assert("K"@.len() == 1 && "K"@[0] == 'K');
    reveal_strlit("KeyA");
    assert("KeyA"@.len() == 4 && "KeyA"@[0] == 'K' && "KeyA"@[1] == 'e' && "KeyA"@[2] == 'y'
        && "KeyA"@[3] == 'A');
    reveal_strlit("KeyB");
    assert("KeyB"@.len() == 4 && "KeyB"@[0] == 'K' && "KeyB"@[1] == 'e' && "KeyB"@[2] == 'y'
        && "KeyB"@[3] == 'B');
    reveal_strlit("KeyC");
    assert("KeyC"@.len() == 4 && "KeyC"@[0] == 'K' && "KeyC"@[1] == 'e' && "KeyC"@[2] == 'y'
        && "KeyC"@[3] == 'C');
    reveal_strlit("KeyD");
    assert("KeyD"@.len() == 4 && "KeyD"@[0] == 'K' && "KeyD"@[1] == 'e' && "KeyD"@[2] == 'y'
        && "KeyD"@[3] == 'D');
    reveal_strlit("KeyE");
    assert("KeyE"@.len() == 4 && "KeyE"@[0] == 'K' && "KeyE"@[1] == 'e' && "KeyE"@[2] == 'y'
        && "KeyE"@[3] == 'E');
    reveal_strlit("KeyF");
    assert("KeyF"@.len() == 4 && "KeyF"@[0] == 'K' && "KeyF"@[1] == 'e' && "KeyF"@[2] == 'y'
        && "KeyF"@[3] == 'F');
    reveal_strlit("KeyG");
    assert("KeyG"@.len() == 4 && "KeyG"@[0] == 'K' && "KeyG"@[1] == 'e' && "KeyG"@[2] == 'y'
        && "KeyG"@[3] == 'G');
    reveal_strlit("KeyH");
    assert("KeyH"@.len() == 4 && "KeyH"@[0] == 'K' && "KeyH"@[1] == 'e' && "KeyH"@[2] == 'y'
        && "KeyH"@[3] == 'H');
    reveal_strlit("KeyI");
    assert("KeyI"@.len() == 4 && "KeyI"@[0] == 'K' && "KeyI"@[1] == 'e' && "KeyI"@[2] == 'y'
        && "KeyI"@[3] == 'I');
    reveal_strlit("KeyJ");
    assert("KeyJ"@.len() == 4 && "KeyJ"@[0] == 'K' && "KeyJ"@[1] == 'e' && "KeyJ"@[2] == 'y'
        && "KeyJ"@[3] == 'J');
    reveal_strlit("KeyK");
    assert("KeyK"@.len() == 4 && "KeyK"@[0] == 'K' && "KeyK"@[1] == 'e' && "KeyK"@[2] == 'y'
        && "KeyK"@[3] == 'K');
    reveal_strlit("KeyL");
    assert("KeyL"@.len() == 4 && "KeyL"@[0] == 'K' && "KeyL"@[1] == 'e' && "KeyL"@[2] == 'y'
        && "KeyL"@[3] == 'L');
    reveal_strlit("KeyM");
    assert("KeyM"@.len() == 4 && "KeyM"@[0] == 'K' && "KeyM"@[1] == 'e' && "KeyM"@[2] == 'y'
        && "KeyM"@[3] == 'M');
    reveal_strlit("KeyN");
    assert("KeyN"@.len() == 4 && "KeyN"@[0] == 'K' && "KeyN"@[1] == 'e' && "KeyN"@[2] == 'y'
        && "KeyN"@[3] == 'N');
    reveal_strlit("KeyO");
    assert("KeyO"@.len() == 4 && "KeyO"@[0] == 'K' && "KeyO"@[1] == 'e' && "KeyO"@[2] == 'y'
        && "KeyO"@[3] == 'O');
    reveal_strlit("KeyP");
    assert("KeyP"@.len() == 4 && "KeyP"@[0] == 'K' && "KeyP"@[1] == 'e' && "KeyP"@[2] == 'y'
        && "KeyP"@[3] == 'P');
    reveal_strlit("KeyQ");
    assert("KeyQ"@.len() == 4 && "KeyQ"@[0] == 'K' && "KeyQ"@[1] == 'e' && "KeyQ"@[2] == 'y'
        && "KeyQ"@[3] == 'Q');
    reveal_strlit("KeyR");
    assert("KeyR"@.len() == 4 && "KeyR"@[0] == 'K' && "KeyR"@[1] == 'e' && "KeyR"@[2] == 'y'
        && "KeyR"@[3] == 'R');
    reveal_strlit("KeyS");
    assert("KeyS"@.len() == 4 && "KeyS"@[0] == 'K' && "KeyS"@[1] == 'e' && "KeyS"@[2] == 'y'
        && "KeyS"@[3] == 'S');
    reveal_strlit("KeyT");
    assert("KeyT"@.len() == 4 && "KeyT"@[0] == 'K' && "KeyT"@[1] == 'e' && "KeyT"@[2] == 'y'
        && "KeyT"@[3] == 'T');
    reveal_strlit("KeyU");
    assert("KeyU"@.len() == 4 && "KeyU"@[0] == 'K' && "KeyU"@[1] == 'e' && "KeyU"@[2] == 'y'
        && "KeyU"@[3] == 'U');
    reveal_strlit("KeyV");
    assert("KeyV"@.len() == 4 && "KeyV"@[0] == 'K' && "KeyV"@[1] == 'e' && "KeyV"@[2] == 'y'
        && "KeyV"@[3] == 'V');
    reveal_strlit("KeyW");
    assert("KeyW"@.len() == 4 && "KeyW"@[0] == 'K' && "KeyW"@[1] == 'e' && "KeyW"@[2] == 'y'
        && "KeyW"@[3] == 'W');
    reveal_strlit("KeyX");
    assert("KeyX"@.len() == 4 && "KeyX"@[0] == 'K' && "KeyX"@[1] == 'e' && "KeyX"@[2] == 'y'
        && "KeyX"@[3] == 'X');
    reveal_strlit("KeyY");
    assert("KeyY"@.len() == 4 && "KeyY"@[0] == 'K' && "KeyY"@[1] == 'e' && "KeyY"@[2] == 'y'
        && "KeyY"@[3] == 'Y');
    reveal_strlit("KeyZ");
    assert("KeyZ"@.len() == 4 && "KeyZ"@[0] == 'K' && "KeyZ"@[1] == 'e' && "KeyZ"@[2] == 'y'
        && "KeyZ"@[3] == 'Z');
    reveal_strlit("L");
    assert("L"@.len() == 1 && "L"@[0] == 'L');
    reveal_strlit("LeftArrow");
    assert("LeftArrow"@.len() == 9 && "LeftArrow"@[0] == 'L' && "LeftArrow"@[1] == 'e'
        && "LeftArrow"@[2] == 'f' && "LeftArrow"@[3] == 't' && "LeftArrow"@[4] == 'A'
        && "LeftArrow"@[5] == 'r' && "LeftArrow"@[6] == 'r' && "LeftArrow"@[7] == 'o'
        && "LeftArrow"@[8] == 'w');
    reveal_strlit("LeftBracket");
    assert("LeftBracket"@.len() == 11 && "LeftBracket"@[0] == 'L' && "LeftBracket"@[1] == 'e'
        && "LeftBracket"@[2] == 'f' && "LeftBracket"@[3] == 't' && "LeftBracket"@[4] == 'B'
        && "LeftBracket"@[5] == 'r' && "LeftBracket"@[6] == 'a' && "LeftBracket"@[7] == 'c'
        && "LeftBracket"@[8] == 'k' && "LeftBracket"@[9] == 'e' && "LeftBracket"@[10] == 't');
    reveal_strlit("M");
    assert("M"@.len() == 1 && "M"@[0] == 'M');
    reveal_strlit("MetaLeft");
    assert("MetaLeft"@.len() == 8 && "MetaLeft"@[0] == 'M' && "MetaLeft"@[1] == 'e'
        && "MetaLeft"@[2] == 't' && "MetaLeft"@[3] == 'a' && "MetaLeft"@[4] == 'L'
        && "MetaLeft"@[5] == 'e' && "MetaLeft"@[6] == 'f' && "MetaLeft"@[7] == 't');
    reveal_strlit("MetaRight");
    assert("MetaRight"@.len() == 9 && "MetaRight"@[0] == 'M' && "MetaRight"@[1] == 'e'
        && "MetaRight"@[2] == 't' && "MetaRight"@[3] == 'a' && "MetaRight"@[4] == 'R'
        && "MetaRight"@[5] == 'i' && "MetaRight"@[6] == 'g' && "MetaRight"@[7] == 'h'
        && "MetaRight"@[8] == 't');
    reveal_strlit("Minus");
    assert("Minus"@.len() == 5 && "Minus"@[0] == 'M' && "Minus"@[1] == 'i' && "Minus"@[2] == 'n'
        && "Minus"@[3] == 'u' && "Minus"@[4] == 's');
    reveal_strlit("N");
    assert("N"@.len() == 1 && "N"@[0] == 'N');
    reveal_strlit("Num0");
    assert("Num0"@.len() == 4 && "Num0"@[0] == 'N' && "Num0"@[1] == 'u' && "Num0"@[2] == 'm'
        && "Num0"@[3] == '0');
    reveal_strlit("Num1");
    assert("Num1"@.len() == 4 && "Num1"@[0] == 'N' && "Num1"@[1] == 'u' && "Num1"@[2] == 'm'
        && "Num1"@[3] == '1');
    reveal_strlit("Num2");
    assert("Num2"@.len() == 4 && "Num2"@[0] == 'N' && "Num2"@[1] == 'u' && "Num2"@[2] == 'm'
        && "Num2"@[3] == '2');
    reveal_strlit("Num3");
    assert("Num3"@.len() == 4 && "Num3"@[0] == 'N' && "Num3"@[1] == 'u' && "Num3"@[2] == 'm'
        && "Num3"@[3] == '3');
    reveal_strlit("Num4");
    assert("Num4"@.len() == 4 && "Num4"@[0] == 'N' && "Num4"@[1] == 'u' && "Num4"@[2] == 'm'
        && "Num4"@[3] == '4');
    reveal_strlit("Num5");
    assert("Num5"@.len() == 4 && "Num5"@[0] == 'N' && "Num5"@[1] == 'u' && "Num5"@[2] == 'm'
        && "Num5"@[3] == '5');
    reveal_strlit("Num6");
    assert("Num6"@.len() == 4 && "Num6"@[0] == 'N' && "Num6"@[1] == 'u' && "Num6"@[2] == 'm'
        && "Num6"@[3] == '6');
    reveal_strlit("Num7");
    assert("Num7"@.len() == 4 && "Num7"@[0] == 'N' && "Num7"@[1] == 'u' && "Num7"@[2] == 'm'
        && "Num7"@[3] == '7');
    reveal_strlit("Num8");
    assert("Num8"@.len() == 4 && "Num8"@[0] == 'N' && "Num8"@[1] == 'u' && "Num8"@[2] == 'm'
        && "Num8"@[3] == '8');
    reveal_strlit("Num9");
    assert("Num9"@.len() == 4 && "Num9"@[0] == 'N' && "Num9"@[1] == 'u' && "Num9"@[2] == 'm'
        && "Num9"@[3] == '9');
    reveal_strlit("NumLock");
    assert("NumLock"@.len() == 7 && "NumLock"@[0] == 'N' && "NumLock"@[1] == 'u'
        && "NumLock"@[2] == 'm' && "NumLock"@[3] == 'L' && "NumLock"@[4] == 'o'
        && "NumLock"@[5] == 'c' && "NumLock"@[6] == 'k');
    reveal_strlit("O");
    assert("O"@.len() == 1 && "O"@[0] == 'O');
    reveal_strlit("OpenBracket");
    assert("OpenBracket"@.len() == 11 && "OpenBracket"@[0] == 'O' && "OpenBracket"@[1] == 'p'
        && "OpenBracket"@[2] == 'e' && "OpenBracket"@[3] == 'n' && "OpenBracket"@[4] == 'B'
        && "OpenBracket"@[5] == 'r' && "OpenBracket"@[6] == 'a' && "OpenBracket"@[7] == 'c'
        && "OpenBracket"@[8] == 'k' && "OpenBracket"@[9] == 'e' && "OpenBracket"@[10] == 't');
    reveal_strlit("OpenCurlyBracket");
    assert("OpenCurlyBracket"@.len() == 16 && "OpenCurlyBracket"@[0] == 'O'
        && "OpenCurlyBracket"@[1] == 'p' && "OpenCurlyBracket"@[2] == 'e'
        && "OpenCurlyBracket"@[3] == 'n' && "OpenCurlyBracket"@[4] == 'C'
        && "OpenCurlyBracket"@[5] == 'u' && "OpenCurlyBracket"@[6] == 'r'
        && "OpenCurlyBracket"@[7] == 'l' && "OpenCurlyBracket"@[8] == 'y'
        && "OpenCurlyBracket"@[9] == 'B' && "OpenCurlyBracket"@[10] == 'r'
        && "OpenCurlyBracket"@[11] == 'a' && "OpenCurlyBracket"@[12] == 'c'
        && "OpenCurlyBracket"@[13] == 'k' && "OpenCurlyBracket"@[14] == 'e'
        && "OpenCurlyBracket"@[15] == 't');
    reveal_strlit("P");
    assert("P"@.len() == 1 && "P"@[0] == 'P');
    reveal_strlit("PageDown");
    assert("PageDown"@.len() == 8 && "PageDown"@[0] == 'P' && "PageDown"@[1] == 'a'
        && "PageDown"@[2] == 'g' && "PageDown"@[3] == 'e' && "PageDown"@[4] == 'D'
        && "PageDown"@[5] == 'o' && "PageDown"@[6] == 'w' && "PageDown"@[7] == 'n');
    reveal_strlit("PageUp");
    assert("PageUp"@.len() == 6 && "PageUp"@[0] == 'P' && "PageUp"@[1] == 'a'
        && "PageUp"@[2] == 'g' && "PageUp"@[3] == 'e' && "PageUp"@[4] == 'U'
        && "PageUp"@[5] == 'p');
    reveal_strlit("Pause");
    assert("Pause"@.len() == 5 && "Pause"@[0] == 'P' && "Pause"@[1] == 'a' && "Pause"@[2] == 'u'
        && "Pause"@[3] == 's' && "Pause"@[4] == 'e');
    reveal_strlit("Period");
    assert("Period"@.len() == 6 && "Period"@[0] == 'P' && "Period"@[1] == 'e'
        && "Period"@[2] == 'r' && "Period"@[3] == 'i' && "Period"@[4] == 'o'
        && "Period"@[5] == 'd');
    reveal_strlit("Pipe");
    assert("Pipe"@.len() == 4 && "Pipe"@[0] == 'P' && "Pipe"@[1] == 'i' && "Pipe"@[2] == 'p'
        && "Pipe"@[3] == 'e');
    reveal_strlit("Plus");
    assert("Plus"@.len() == 4 && "Plus"@[0] == 'P' && "Plus"@[1] == 'l' && "Plus"@[2] == 'u'
        && "Plus"@[3] == 's');
    reveal_strlit("PrintScreen");
    assert("PrintScreen"@.len() == 11 && "PrintScreen"@[0] == 'P' && "PrintScreen"@[1] == 'r'
        && "PrintScreen"@[2] == 'i' && "PrintScreen"@[3] == 'n' && "PrintScreen"@[4] == 't'
        && "PrintScreen"@[5] == 'S' && "PrintScreen"@[6] == 'c' && "PrintScreen"@[7] == 'r'
        && "PrintScreen"@[8] == 'e' && "PrintScreen"@[9] == 'e' && "PrintScreen"@[10] == 'n');
    reveal_strlit("Q");
    assert("Q"@.len() == 1 && "Q"@[0] == 'Q');
    reveal_strlit("Questionmark");
    assert("Questionmark"@.len() == 12 && "Questionmark"@[0] == 'Q' && "Questionmark"@[1] == 'u'
        && "Questionmark"@[2] == 'e' && "Questionmark"@[3] == 's' && "Questionmark"@[4] == 't'
        && "Questionmark"@[5] == 'i' && "Questionmark"@[6] == 'o' && "Questionmark"@[7] == 'n'
        && "Questionmark"@[8] == 'm' && "Questionmark"@[9] == 'a' && "Questionmark"@[10] == 'r'
        && "Questionmark"@[11] == 'k');
    reveal_strlit("Quote");
    assert("Quote"@.len() == 5 && "Quote"@[0] == 'Q' && "Quote"@[1] == 'u' && "Quote"@[2] == 'o'
        && "Quote"@[3] == 't' && "Quote"@[4] == 'e');
    reveal_strlit("R");
    assert("R"@.len() == 1 && "R"@[0] == 'R');
    reveal_strlit("Return");
    assert("Return"@.len() == 6 && "Return"@[0] == 'R' && "Return"@[1] == 'e'
        && "Return"@[2] == 't' && "Return"@[3] == 'u' && "Return"@[4] == 'r'
        && "Return"@[5] == 'n');
    reveal_strlit("RightArrow");
    assert("RightArrow"@.len() == 10 && "RightArrow"@[0] == 'R' && "RightArrow"@[1] == 'i'
        && "RightArrow"@[2] == 'g' && "RightArrow"@[3] == 'h' && "RightArrow"@[4] == 't'
        && "RightArrow"@[5] == 'A' && "RightArrow"@[6] == 'r' && "RightArrow"@[7] == 'r'
        && "RightArrow"@[8] == 'o' && "RightArrow"@[9] == 'w');
    reveal_strlit("RightBracket");
    assert("RightBracket"@.len() == 12 && "RightBracket"@[0] == 'R' && "RightBracket"@[1] == 'i'
        && "RightBracket"@[2] == 'g' && "RightBracket"@[3] == 'h' && "RightBracket"@[4] == 't'
        && "RightBracket"@[5] == 'B' && "RightBracket"@[6] == 'r' && "RightBracket"@[7] == 'a'
        && "RightBracket"@[8] == 'c' && "RightBracket"@[9] == 'k' && "RightBracket"@[10] == 'e'
        && "RightBracket"@[11] == 't');
    reveal_strlit("S");
    assert("S"@.len() == 1 && "S"@[0] == 'S');
    reveal_strlit("ScrollLock");
    assert("ScrollLock"@.len() == 10 && "ScrollLock"@[0] == 'S' && "ScrollLock"@[1] == 'c'
        && "ScrollLock"@[2] == 'r' && "ScrollLock"@[3] == 'o' && "ScrollLock"@[4] == 'l'
        && "ScrollLock"@[5] == 'l' && "ScrollLock"@[6] == 'L' && "ScrollLock"@[7] == 'o'
        && "ScrollLock"@[8] == 'c' && "ScrollLock"@[9] == 'k');
    reveal_strlit("SemiColon");
    assert("SemiColon"@.len() == 9 && "SemiColon"@[0] == 'S' && "SemiColon"@[1] == 'e'
        && "SemiColon"@[2] == 'm' && "SemiColon"@[3] == 'i' && "SemiColon"@[4] == 'C'
        && "SemiColon"@[5] == 'o' && "SemiColon"@[6] == 'l' && "SemiColon"@[7] == 'o'
        && "SemiColon"@[8] == 'n');
    reveal_strlit("Semicolon");
    assert("Semicolon"@.len() == 9 && "Semicolon"@[0] == 'S' && "Semicolon"@[1] == 'e'
        && "Semicolon"@[2] == 'm' && "Semicolon"@[3] == 'i' && "Semicolon"@[4] == 'c'
        && "Semicolon"@[5] == 'o' && "Semicolon"@[6] == 'l' && "Semicolon"@[7] == 'o'
        && "Semicolon"@[8] == 'n');
    reveal_strlit("ShiftLeft");
    assert("ShiftLeft"@.len() == 9 && "ShiftLeft"@[0] == 'S' && "ShiftLeft"@[1] == 'h'
        && "ShiftLeft"@[2] == 'i' && "ShiftLeft"@[3] == 'f' && "ShiftLeft"@[4] == 't'
        && "ShiftLeft"@[5] == 'L' && "ShiftLeft"@[6] == 'e' && "ShiftLeft"@[7] == 'f'
        && "ShiftLeft"@[8] == 't');
    reveal_strlit("ShiftRight");
    assert("ShiftRight"@.len() == 10 && "ShiftRight"@[0] == 'S' && "ShiftRight"@[1] == 'h'
        && "ShiftRight"@[2] == 'i' && "ShiftRight"@[3] == 'f' && "ShiftRight"@[4] == 't'
        && "ShiftRight"@[5] == 'R' && "ShiftRight"@[6] == 'i' && "ShiftRight"@[7] == 'g'
        && "ShiftRight"@[8] == 'h' && "ShiftRight"@[9] == 't');
    reveal_strlit("Slash");
    assert("Slash"@.len() == 5 && "Slash"@[0] == 'S' && "Slash"@[1] == 'l' && "Slash"@[2] == 'a'
        && "Slash"@[3] == 's' && "Slash"@[4] == 'h');
    reveal_strlit("Space");
    assert("Space"@.len() == 5 && "Space"@[0] == 'S' && "Space"@[1] == 'p' && "Space"@[2] == 'a'
        && "Space"@[3] == 'c' && "Space"@[4] == 'e');
    reveal_strlit("SuperLeft");
    assert("SuperLeft"@.len() == 9 && "SuperLeft"@[0] == 'S' && "SuperLeft"@[1] == 'u'
        && "SuperLeft"@[2] == 'p' && "SuperLeft"@[3] == 'e' && "SuperLeft"@[4] == 'r'
        && "SuperLeft"@[5] == 'L' && "SuperLeft"@[6] == 'e' && "SuperLeft"@[7] == 'f'
        && "SuperLeft"@[8] == 't');
    reveal_strlit("SuperRight");
    assert("SuperRight"@.len() == 10 && "SuperRight"@[0] == 'S' && "SuperRight"@[1] == 'u'
        && "SuperRight"@[2] == 'p' && "SuperRight"@[3] == 'e' && "SuperRight"@[4] == 'r'
        && "SuperRight"@[5] == 'R' && "SuperRight"@[6] == 'i' && "SuperRight"@[7] == 'g'
        && "SuperRight"@[8] == 'h' && "SuperRight"@[9] == 't');
    reveal_strlit("T");
    assert("T"@.len() == 1 && "T"@[0] == 'T');
    reveal_strlit("Tab");
    assert("Tab"@.len() == 3 && "Tab"@[0] == 'T' && "Tab"@[1] == 'a' && "Tab"@[2] == 'b');
    reveal_strlit("U");
    assert("U"@.len() == 1 && "U"@[0] == 'U');
    reveal_strlit("UpArrow");
    assert("UpArrow"@.len() == 7 && "UpArrow"@[0] == 'U' && "UpArrow"@[1] == 'p'
        && "UpArrow"@[2] == 'A' && "UpArrow"@[3] == 'r' && "UpArrow"@[4] == 'r'
        && "UpArrow"@[5] == 'o' && "UpArrow"@[6] == 'w');
    reveal_strlit("V");
    assert("V"@.len() == 1 && "V"@[0] == 'V');
    reveal_strlit("W");
    assert("W"@.len() == 1 && "W"@[0] == 'W');
    reveal_strlit("X");
    assert("X"@.len() == 1 && "X"@[0] == 'X');
    reveal_strlit("Y");
    assert("Y"@.len() == 1 && "Y"@[0] == 'Y');
    reveal_strlit("Z");
    assert("Z"@.len() == 1 && "Z"@[0] == 'Z');
    match k {
        WinKey::KeyA => {
            assert(k.name_spec().skip(3) =~= "A"@);
            assert(window_code("A"@) == Some(k.code_spec()));
        },
        WinKey::KeyB => {
            assert(k.name_spec().skip(3) =~= "B"@);
            assert(window_code("B"@) == Some(k.code_spec()));
        },
        WinKey::KeyC => {
            assert(k.name_spec().skip(3) =~= "C"@);
            assert(window_code("C"@) == Some(k.code_spec()));
        },
        WinKey::KeyD => {
            assert(k.name_spec().skip(3) =~= "D"@);
            assert(window_code("D"@) == Some(k.code_spec()));
        },
        WinKey::KeyE => {
            assert(k.name_spec().skip(3) =~= "E"@);
            assert(window_code("E"@) == Some(k.code_spec()));
        },
        WinKey::KeyF => {
            assert(k.name_spec().skip(3) =~= "F"@);
            assert(window_code("F"@) == Some(k.code_spec()));
        },
        WinKey::KeyG => {
            assert(k.name_spec().skip(3) =~= "G"@);
            assert(window_code("G"@) == Some(k.code_spec()));
        },
        WinKey::KeyH => {
            assert(k.name_spec().skip(3) =~= "H"@);
            assert(window_code("H"@) == Some(k.code_spec()));
        },
        WinKey::KeyI => {
            assert(k.name_spec().skip(3) =~= "I"@);
            assert(window_code("I"@) == Some(k.code_spec()));
        },
        WinKey::KeyJ => {
            assert(k.name_spec().skip(3) =~= "J"@);
            assert(window_code("J"@) == Some(k.code_spec()));
        },
        WinKey::KeyK => {
            assert(k.name_spec().skip(3) =~= "K"@);
            assert(window_code("K"@) == Some(k.code_spec()));
        },
        WinKey::KeyL => {
            assert(k.name_spec().skip(3) =~= "L"@);
            assert(window_code("L"@) == Some(k.code_spec()));
        },
        WinKey::KeyM => {
            assert(k.name_spec().skip(3) =~= "M"@);
            assert(window_code("M"@) == Some(k.code_spec()));
        },
        WinKey::KeyN => {
            assert(k.name_spec().skip(3) =~= "N"@);
            assert(window_code("N"@) == Some(k.code_spec()));
        },
        WinKey::KeyO => {
            assert(k.name_spec().skip(3) =~= "O"@);
            assert(window_code("O"@) == Some(k.code_spec()));
        },
        WinKey::KeyP => {
            assert(k.name_spec().skip(3) =~= "P"@);
            assert(window_code("P"@) == Some(k.code_spec()));
        },
        WinKey::KeyQ => {
            assert(k.name_spec().skip(3) =~= "Q"@);
            assert(window_code("Q"@) == Some(k.code_spec()));
        },
        WinKey::KeyR => {
            assert(k.name_spec().skip(3) =~= "R"@);
            assert(window_code("R"@) == Some(k.code_spec()));
        },
        WinKey::KeyS => {
            assert(k.name_spec().skip(3) =~= "S"@);
            assert(window_code("S"@) == Some(k.code_spec()));
        },
        WinKey::KeyT => {
            assert(k.name_spec().skip(3) =~= "T"@);
            assert(window_code("T"@) == Some(k.code_spec()));
        },
        WinKey::KeyU => {
            assert(k.name_spec().skip(3) =~= "U"@);
            assert(window_code("U"@) == Some(k.code_spec()));
        },
        WinKey::KeyV => {
            assert(k.name_spec().skip(3) =~= "V"@);
            assert(window_code("V"@) == Some(k.code_spec()));
        },
        WinKey::KeyW => {
            assert(k.name_spec().skip(3) =~= "W"@);
            assert(window_code("W"@) == Some(k.code_spec()));
        },
        WinKey::KeyX => {
            assert(k.name_spec().skip(3) =~= "X"@);
            assert(window_code("X"@) == Some(k.code_spec()));
        },
        WinKey::KeyY => {
            assert(k.name_spec().skip(3) =~= "Y"@);
            assert(window_code("Y"@) == Some(k.code_spec()));
        },
        WinKey::KeyZ => {
            assert(k.name_spec().skip(3) =~= "Z"@);
            assert(window_code("Z"@) == Some(k.code_spec()));
        },
        _ => {},
    }
}

} // verus!
