//! Key classifier: a stateless mapping from logical key identifiers to
//! the stable code strings reported to the UI layer and to the platform
//! virtual-key values used for synthetic injection.

use vstd::prelude::*;

verus! {

/// Logical identifier of a keyboard key, as reported by the low-level hook.
/// `Unknown` carries the raw platform value of a key with no known name.
#[derive(Clone, Copy, PartialEq, Eq, Structural, Debug)]
pub enum KeyId {
    KeyA,
    KeyB,
    KeyC,
    KeyD,
    KeyE,
    KeyF,
    KeyG,
    KeyH,
    KeyI,
    KeyJ,
    KeyK,
    KeyL,
    KeyM,
    KeyN,
    KeyO,
    KeyP,
    KeyQ,
    KeyR,
    KeyS,
    KeyT,
    KeyU,
    KeyV,
    KeyW,
    KeyX,
    KeyY,
    KeyZ,
    Num1,
    Num2,
    Num3,
    Num4,
    Num5,
    Num6,
    Num7,
    Num8,
    Num9,
    Num0,
    Escape,
    F1,
    F2,
    F3,
    F4,
    F5,
    F6,
    F7,
    F8,
    F9,
    F10,
    F11,
    F12,
    BackQuote,
    Minus,
    Equal,
    Backspace,
    Tab,
    LeftBracket,
    RightBracket,
    BackSlash,
    CapsLock,
    SemiColon,
    Quote,
    Return,
    ShiftLeft,
    ShiftRight,
    ControlLeft,
    ControlRight,
    Alt,
    AltGr,
    MetaLeft,
    MetaRight,
    Space,
    PrintScreen,
    ScrollLock,
    Pause,
    Insert,
    Home,
    PageUp,
    Delete,
    End,
    PageDown,
    RightArrow,
    LeftArrow,
    DownArrow,
    UpArrow,
    NumLock,
    Kp0,
    Kp1,
    Kp2,
    Kp3,
    Kp4,
    Kp5,
    Kp6,
    Kp7,
    Kp8,
    Kp9,
    KpMultiply,
    KpPlus,
    KpMinus,
    KpDelete,
    KpDivide,
    KpReturn,
    Slash,
    Dot,
    Comma,
    IntlBackslash,
    Function,
    Unknown(u32),
}

/// The decimal digit `d` (0 through 9) as a character.
pub open spec fn spec_digit_char(d: nat) -> char {
    if d == 0 {
        '0'
    } else if d == 1 {
        '1'
    } else if d == 2 {
        '2'
    } else if d == 3 {
        '3'
    } else if d == 4 {
        '4'
    } else if d == 5 {
        '5'
    } else if d == 6 {
        '6'
    } else if d == 7 {
        '7'
    } else if d == 8 {
        '8'
    } else {
        '9'
    }
}

/// Decimal digits of `n`, most significant first, with no leading zeros
/// (a single `'0'` for zero itself).
pub open spec fn spec_decimal(n: nat) -> Seq<char>
    decreases n,
{
    if n < 10 {
        seq![spec_digit_char(n)]
    } else {
        spec_decimal(n / 10).push(spec_digit_char(n % 10))
    }
}

/// Appends the decimal digits of `n` to `out`.
fn push_decimal(n: u32, out: &mut String)
    ensures
        final(out)@ == old(out)@ + spec_decimal(n as nat),
    decreases n,
{
    proof {
        reveal_strlit("0123456789");
    }
    let digits = "0123456789";
    if n >= 10 {
        push_decimal(n / 10, out);
    }
    let d = (n % 10) as usize;
    assert(digits@[d as int] == spec_digit_char((n % 10) as nat));
    out.append(digits.substring_ascii(d, d + 1));
    proof {
        assert(out@ =~= old(out)@ + spec_decimal(n as nat));
    }
}

/// The decimal rendering of `n`, most significant digit first.
pub fn u32_to_decimal(n: u32) -> (r: String)
    ensures
        r@ == spec_decimal(n as nat),
{
    let mut out = String::new();
    push_decimal(n, &mut out);
    proof {
        assert(out@ =~= spec_decimal(n as nat));
    }
    out
}

/// The stable logical code string of a key, as the UI layer sees it.
pub open spec fn spec_key_code(key: KeyId) -> Seq<char> {
    match key {
        KeyId::KeyA => "KeyA"@,
        KeyId::KeyB => "KeyB"@,
        KeyId::KeyC => "KeyC"@,
        KeyId::KeyD => "KeyD"@,
        KeyId::KeyE => "KeyE"@,
        KeyId::KeyF => "KeyF"@,
        KeyId::KeyG => "KeyG"@,
        KeyId::KeyH => "KeyH"@,
        KeyId::KeyI => "KeyI"@,
        KeyId::KeyJ => "KeyJ"@,
        KeyId::KeyK => "KeyK"@,
        KeyId::KeyL => "KeyL"@,
        KeyId::KeyM => "KeyM"@,
        KeyId::KeyN => "KeyN"@,
        KeyId::KeyO => "KeyO"@,
        KeyId::KeyP => "KeyP"@,
        KeyId::KeyQ => "KeyQ"@,
        KeyId::KeyR => "KeyR"@,
        KeyId::KeyS => "KeyS"@,
        KeyId::KeyT => "KeyT"@,
        KeyId::KeyU => "KeyU"@,
        KeyId::KeyV => "KeyV"@,
        KeyId::KeyW => "KeyW"@,
        KeyId::KeyX => "KeyX"@,
        KeyId::KeyY => "KeyY"@,
        KeyId::KeyZ => "KeyZ"@,
        KeyId::Num1 => "Digit1"@,
        KeyId::Num2 => "Digit2"@,
        KeyId::Num3 => "Digit3"@,
        KeyId::Num4 => "Digit4"@,
        KeyId::Num5 => "Digit5"@,
        KeyId::Num6 => "Digit6"@,
        KeyId::Num7 => "Digit7"@,
        KeyId::Num8 => "Digit8"@,
        KeyId::Num9 => "Digit9"@,
        KeyId::Num0 => "Digit0"@,
        KeyId::Escape => "Escape"@,
        KeyId::F1 => "F1"@,
        KeyId::F2 => "F2"@,
        KeyId::F3 => "F3"@,
        KeyId::F4 => "F4"@,
        KeyId::F5 => "F5"@,
        KeyId::F6 => "F6"@,
        KeyId::F7 => "F7"@,
        KeyId::F8 => "F8"@,
        KeyId::F9 => "F9"@,
        KeyId::F10 => "F10"@,
        KeyId::F11 => "F11"@,
        KeyId::F12 => "F12"@,
        KeyId::BackQuote => "Backquote"@,
        KeyId::Minus => "Minus"@,
        KeyId::Equal => "Equal"@,
        KeyId::Backspace => "Backspace"@,
        KeyId::Tab => "Tab"@,
        KeyId::LeftBracket => "BracketLeft"@,
        KeyId::RightBracket => "BracketRight"@,
        KeyId::BackSlash => "Backslash"@,
        KeyId::CapsLock => "CapsLock"@,
        KeyId::SemiColon => "Semicolon"@,
        KeyId::Quote => "Quote"@,
        KeyId::Return => "Enter"@,
        KeyId::ShiftLeft => "ShiftLeft"@,
        KeyId::ShiftRight => "ShiftRight"@,
        KeyId::ControlLeft => "ControlLeft"@,
        KeyId::ControlRight => "ControlRight"@,
        KeyId::Alt => "AltLeft"@,
        KeyId::AltGr => "AltRight"@,
        KeyId::MetaLeft => "MetaLeft"@,
        KeyId::MetaRight => "MetaRight"@,
        KeyId::Space => "Space"@,
        KeyId::PrintScreen => "PrintScreen"@,
        KeyId::ScrollLock => "ScrollLock"@,
        KeyId::Pause => "Pause"@,
        KeyId::Insert => "Insert"@,
        KeyId::Home => "Home"@,
        KeyId::PageUp => "PageUp"@,
        KeyId::Delete => "Delete"@,
        KeyId::End => "End"@,
        KeyId::PageDown => "PageDown"@,
        KeyId::RightArrow => "ArrowRight"@,
        KeyId::LeftArrow => "ArrowLeft"@,
        KeyId::DownArrow => "ArrowDown"@,
        KeyId::UpArrow => "ArrowUp"@,
        KeyId::NumLock => "NumLock"@,
        KeyId::Kp0 => "Numpad0"@,
        KeyId::Kp1 => "Numpad1"@,
        KeyId::Kp2 => "Numpad2"@,
        KeyId::Kp3 => "Numpad3"@,
        KeyId::Kp4 => "Numpad4"@,
        KeyId::Kp5 => "Numpad5"@,
        KeyId::Kp6 => "Numpad6"@,
        KeyId::Kp7 => "Numpad7"@,
        KeyId::Kp8 => "Numpad8"@,
        KeyId::Kp9 => "Numpad9"@,
        KeyId::KpMultiply => "NumpadMultiply"@,
        KeyId::KpPlus => "NumpadAdd"@,
        KeyId::KpMinus => "NumpadSubtract"@,
        KeyId::KpDelete => "NumpadDecimal"@,
        KeyId::KpDivide => "NumpadDivide"@,
        KeyId::KpReturn => "NumpadEnter"@,
        KeyId::Slash => "Slash"@,
        KeyId::Dot => "Period"@,
        KeyId::Comma => "Comma"@,
        KeyId::IntlBackslash => "IntlBackslash"@,
        KeyId::Function => "Function"@,
        KeyId::Unknown(n) => "Unknown("@ + spec_decimal(n as nat) + ")"@,
    }
}

/// The stable logical code string of a key.
pub fn key_to_code(key: KeyId) -> (r: String)
    ensures
        r@ == spec_key_code(key),
{
    let code: &str = match key {
        KeyId::KeyA => "KeyA",
        KeyId::KeyB => "KeyB",
        KeyId::KeyC => "KeyC",
        KeyId::KeyD => "KeyD",
        KeyId::KeyE => "KeyE",
        KeyId::KeyF => "KeyF",
        KeyId::KeyG => "KeyG",
        KeyId::KeyH => "KeyH",
        KeyId::KeyI => "KeyI",
        KeyId::KeyJ => "KeyJ",
        KeyId::KeyK => "KeyK",
        KeyId::KeyL => "KeyL",
        KeyId::KeyM => "KeyM",
        KeyId::KeyN => "KeyN",
        KeyId::KeyO => "KeyO",
        KeyId::KeyP => "KeyP",
        KeyId::KeyQ => "KeyQ",
        KeyId::KeyR => "KeyR",
        KeyId::KeyS => "KeyS",
        KeyId::KeyT => "KeyT",
        KeyId::KeyU => "KeyU",
        KeyId::KeyV => "KeyV",
        KeyId::KeyW => "KeyW",
        KeyId::KeyX => "KeyX",
        KeyId::KeyY => "KeyY",
        KeyId::KeyZ => "KeyZ",
        KeyId::Num1 => "Digit1",
        KeyId::Num2 => "Digit2",
        KeyId::Num3 => "Digit3",
        KeyId::Num4 => "Digit4",
        KeyId::Num5 => "Digit5",
        KeyId::Num6 => "Digit6",
        KeyId::Num7 => "Digit7",
        KeyId::Num8 => "Digit8",
        KeyId::Num9 => "Digit9",
        KeyId::Num0 => "Digit0",
        KeyId::Escape => "Escape",
        KeyId::F1 => "F1",
        KeyId::F2 => "F2",
        KeyId::F3 => "F3",
        KeyId::F4 => "F4",
        KeyId::F5 => "F5",
        KeyId::F6 => "F6",
        KeyId::F7 => "F7",
        KeyId::F8 => "F8",
        KeyId::F9 => "F9",
        KeyId::F10 => "F10",
        KeyId::F11 => "F11",
        KeyId::F12 => "F12",
        KeyId::BackQuote => "Backquote",
        KeyId::Minus => "Minus",
        KeyId::Equal => "Equal",
        KeyId::Backspace => "Backspace",
        KeyId::Tab => "Tab",
        KeyId::LeftBracket => "BracketLeft",
        KeyId::RightBracket => "BracketRight",
        KeyId::BackSlash => "Backslash",
        KeyId::CapsLock => "CapsLock",
        KeyId::SemiColon => "Semicolon",
        KeyId::Quote => "Quote",
        KeyId::Return => "Enter",
        KeyId::ShiftLeft => "ShiftLeft",
        KeyId::ShiftRight => "ShiftRight",
        KeyId::ControlLeft => "ControlLeft",
        KeyId::ControlRight => "ControlRight",
        KeyId::Alt => "AltLeft",
        KeyId::AltGr => "AltRight",
        KeyId::MetaLeft => "MetaLeft",
        KeyId::MetaRight => "MetaRight",
        KeyId::Space => "Space",
        KeyId::PrintScreen => "PrintScreen",
        KeyId::ScrollLock => "ScrollLock",
        KeyId::Pause => "Pause",
        KeyId::Insert => "Insert",
        KeyId::Home => "Home",
        KeyId::PageUp => "PageUp",
        KeyId::Delete => "Delete",
        KeyId::End => "End",
        KeyId::PageDown => "PageDown",
        KeyId::RightArrow => "ArrowRight",
        KeyId::LeftArrow => "ArrowLeft",
        KeyId::DownArrow => "ArrowDown",
        KeyId::UpArrow => "ArrowUp",
        KeyId::NumLock => "NumLock",
        KeyId::Kp0 => "Numpad0",
        KeyId::Kp1 => "Numpad1",
        KeyId::Kp2 => "Numpad2",
        KeyId::Kp3 => "Numpad3",
        KeyId::Kp4 => "Numpad4",
        KeyId::Kp5 => "Numpad5",
        KeyId::Kp6 => "Numpad6",
        KeyId::Kp7 => "Numpad7",
        KeyId::Kp8 => "Numpad8",
        KeyId::Kp9 => "Numpad9",
        KeyId::KpMultiply => "NumpadMultiply",
        KeyId::KpPlus => "NumpadAdd",
        KeyId::KpMinus => "NumpadSubtract",
        KeyId::KpDelete => "NumpadDecimal",
        KeyId::KpDivide => "NumpadDivide",
        KeyId::KpReturn => "NumpadEnter",
        KeyId::Slash => "Slash",
        KeyId::Dot => "Period",
        KeyId::Comma => "Comma",
        KeyId::IntlBackslash => "IntlBackslash",
        KeyId::Function => "Function",
        KeyId::Unknown(n) => {
            let mut out = "Unknown(".to_owned();
            push_decimal(n, &mut out);
            out.append(")");
            proof {
                assert(out@ =~= spec_key_code(key));
            }
            return out;
        },
    };
    code.to_owned()
}

/// The platform virtual-key value of a key, or `None` for keys that have
/// no injection mapping and therefore can never be latched or released
/// synthetically.
pub open spec fn spec_virtual_key(key: KeyId) -> Option<u16> {
    match key {
        KeyId::KeyA => Some(0x41u16),
        KeyId::KeyB => Some(0x42u16),
        KeyId::KeyC => Some(0x43u16),
        KeyId::KeyD => Some(0x44u16),
        KeyId::KeyE => Some(0x45u16),
        KeyId::KeyF => Some(0x46u16),
        KeyId::KeyG => Some(0x47u16),
        KeyId::KeyH => Some(0x48u16),
        KeyId::KeyI => Some(0x49u16),
        KeyId::KeyJ => Some(0x4Au16),
        KeyId::KeyK => Some(0x4Bu16),
        KeyId::KeyL => Some(0x4Cu16),
        KeyId::KeyM => Some(0x4Du16),
        KeyId::KeyN => Some(0x4Eu16),
        KeyId::KeyO => Some(0x4Fu16),
        KeyId::KeyP => Some(0x50u16),
        KeyId::KeyQ => Some(0x51u16),
        KeyId::KeyR => Some(0x52u16),
        KeyId::KeyS => Some(0x53u16),
        KeyId::KeyT => Some(0x54u16),
        KeyId::KeyU => Some(0x55u16),
        KeyId::KeyV => Some(0x56u16),
        KeyId::KeyW => Some(0x57u16),
        KeyId::KeyX => Some(0x58u16),
        KeyId::KeyY => Some(0x59u16),
        KeyId::KeyZ => Some(0x5Au16),
        KeyId::Num1 => Some(0x31u16),
        KeyId::Num2 => Some(0x32u16),
        KeyId::Num3 => Some(0x33u16),
        KeyId::Num4 => Some(0x34u16),
        KeyId::Num5 => Some(0x35u16),
        KeyId::Num6 => Some(0x36u16),
        KeyId::Num7 => Some(0x37u16),
        KeyId::Num8 => Some(0x38u16),
        KeyId::Num9 => Some(0x39u16),
        KeyId::Num0 => Some(0x30u16),
        KeyId::Escape => Some(0x1Bu16),
        KeyId::BackQuote => Some(0xC0u16),
        KeyId::Minus => Some(0xBDu16),
        KeyId::Equal => Some(0xBBu16),
        KeyId::Backspace => Some(0x08u16),
        KeyId::Tab => Some(0x09u16),
        KeyId::LeftBracket => Some(0xDBu16),
        KeyId::RightBracket => Some(0xDDu16),
        KeyId::BackSlash => Some(0xDCu16),
        KeyId::CapsLock => Some(0x14u16),
        KeyId::SemiColon => Some(0xBAu16),
        KeyId::Quote => Some(0xDEu16),
        KeyId::Return => Some(0x0Du16),
        KeyId::ShiftLeft => Some(0xA0u16),
        KeyId::ShiftRight => Some(0xA1u16),
        KeyId::ControlLeft => Some(0xA2u16),
        KeyId::ControlRight => Some(0xA3u16),
        KeyId::Alt => Some(0xA4u16),
        KeyId::AltGr => Some(0xA5u16),
        KeyId::MetaLeft => Some(0x5Bu16),
        KeyId::MetaRight => Some(0x5Cu16),
        KeyId::Space => Some(0x20u16),
        KeyId::PrintScreen => Some(0x2Cu16),
        KeyId::ScrollLock => Some(0x91u16),
        KeyId::Pause => Some(0x13u16),
        KeyId::Insert => Some(0x2Du16),
        KeyId::Home => Some(0x24u16),
        KeyId::PageUp => Some(0x21u16),
        KeyId::Delete => Some(0x2Eu16),
        KeyId::End => Some(0x23u16),
        KeyId::PageDown => Some(0x22u16),
        KeyId::RightArrow => Some(0x27u16),
        KeyId::LeftArrow => Some(0x25u16),
        KeyId::DownArrow => Some(0x28u16),
        KeyId::UpArrow => Some(0x26u16),
        KeyId::NumLock => Some(0x90u16),
        KeyId::Kp0 => Some(0x60u16),
        KeyId::Kp1 => Some(0x61u16),
        KeyId::Kp2 => Some(0x62u16),
        KeyId::Kp3 => Some(0x63u16),
        KeyId::Kp4 => Some(0x64u16),
        KeyId::Kp5 => Some(0x65u16),
        KeyId::Kp6 => Some(0x66u16),
        KeyId::Kp7 => Some(0x67u16),
        KeyId::Kp8 => Some(0x68u16),
        KeyId::Kp9 => Some(0x69u16),
        KeyId::KpMultiply => Some(0x6Au16),
        KeyId::KpPlus => Some(0x6Bu16),
        KeyId::KpMinus => Some(0x6Du16),
        KeyId::KpDelete => Some(0x6Eu16),
        KeyId::KpDivide => Some(0x6Fu16),
        KeyId::KpReturn => Some(0x0Du16),
        KeyId::Slash => Some(0xBFu16),
        KeyId::Dot => Some(0xBEu16),
        KeyId::Comma => Some(0xBCu16),
        _ => None,
    }
}

/// The platform virtual-key value used to inject a synthetic event for
/// this key, or `None` when the key cannot be injected.
pub fn key_to_virtual_key(key: KeyId) -> (r: Option<u16>)
    ensures
        r == spec_virtual_key(key),
{
    match key {
        KeyId::KeyA => Some(0x41),
        KeyId::KeyB => Some(0x42),
        KeyId::KeyC => Some(0x43),
        KeyId::KeyD => Some(0x44),
        KeyId::KeyE => Some(0x45),
        KeyId::KeyF => Some(0x46),
        KeyId::KeyG => Some(0x47),
        KeyId::KeyH => Some(0x48),
        KeyId::KeyI => Some(0x49),
        KeyId::KeyJ => Some(0x4A),
        KeyId::KeyK => Some(0x4B),
        KeyId::KeyL => Some(0x4C),
        KeyId::KeyM => Some(0x4D),
        KeyId::KeyN => Some(0x4E),
        KeyId::KeyO => Some(0x4F),
        KeyId::KeyP => Some(0x50),
        KeyId::KeyQ => Some(0x51),
        KeyId::KeyR => Some(0x52),
        KeyId::KeyS => Some(0x53),
        KeyId::KeyT => Some(0x54),
        KeyId::KeyU => Some(0x55),
        KeyId::KeyV => Some(0x56),
        KeyId::KeyW => Some(0x57),
        KeyId::KeyX => Some(0x58),
        KeyId::KeyY => Some(0x59),
        KeyId::KeyZ => Some(0x5A),
        KeyId::Num1 => Some(0x31),
        KeyId::Num2 => Some(0x32),
        KeyId::Num3 => Some(0x33),
        KeyId::Num4 => Some(0x34),
        KeyId::Num5 => Some(0x35),
        KeyId::Num6 => Some(0x36),
        KeyId::Num7 => Some(0x37),
        KeyId::Num8 => Some(0x38),
        KeyId::Num9 => Some(0x39),
        KeyId::Num0 => Some(0x30),
        KeyId::Escape => Some(0x1B),
        KeyId::BackQuote => Some(0xC0),
        KeyId::Minus => Some(0xBD),
        KeyId::Equal => Some(0xBB),
        KeyId::Backspace => Some(0x08),
        KeyId::Tab => Some(0x09),
        KeyId::LeftBracket => Some(0xDB),
        KeyId::RightBracket => Some(0xDD),
        KeyId::BackSlash => Some(0xDC),
        KeyId::CapsLock => Some(0x14),
        KeyId::SemiColon => Some(0xBA),
        KeyId::Quote => Some(0xDE),
        KeyId::Return => Some(0x0D),
        KeyId::ShiftLeft => Some(0xA0),
        KeyId::ShiftRight => Some(0xA1),
        KeyId::ControlLeft => Some(0xA2),
        KeyId::ControlRight => Some(0xA3),
        KeyId::Alt => Some(0xA4),
        KeyId::AltGr => Some(0xA5),
        KeyId::MetaLeft => Some(0x5B),
        KeyId::MetaRight => Some(0x5C),
        KeyId::Space => Some(0x20),
        KeyId::PrintScreen => Some(0x2C),
        KeyId::ScrollLock => Some(0x91),
        KeyId::Pause => Some(0x13),
        KeyId::Insert => Some(0x2D),
        KeyId::Home => Some(0x24),
        KeyId::PageUp => Some(0x21),
        KeyId::Delete => Some(0x2E),
        KeyId::End => Some(0x23),
        KeyId::PageDown => Some(0x22),
        KeyId::RightArrow => Some(0x27),
        KeyId::LeftArrow => Some(0x25),
        KeyId::DownArrow => Some(0x28),
        KeyId::UpArrow => Some(0x26),
        KeyId::NumLock => Some(0x90),
        KeyId::Kp0 => Some(0x60),
        KeyId::Kp1 => Some(0x61),
        KeyId::Kp2 => Some(0x62),
        KeyId::Kp3 => Some(0x63),
        KeyId::Kp4 => Some(0x64),
        KeyId::Kp5 => Some(0x65),
        KeyId::Kp6 => Some(0x66),
        KeyId::Kp7 => Some(0x67),
        KeyId::Kp8 => Some(0x68),
        KeyId::Kp9 => Some(0x69),
        KeyId::KpMultiply => Some(0x6A),
        KeyId::KpPlus => Some(0x6B),
        KeyId::KpMinus => Some(0x6D),
        KeyId::KpDelete => Some(0x6E),
        KeyId::KpDivide => Some(0x6F),
        KeyId::KpReturn => Some(0x0D),
        KeyId::Slash => Some(0xBF),
        KeyId::Dot => Some(0xBE),
        KeyId::Comma => Some(0xBC),
        _ => None,
    }
}

/// The four movement keys kept latched in the `Wasd` persistence mode.
pub open spec fn spec_is_wasd(key: KeyId) -> bool {
    key == KeyId::KeyW || key == KeyId::KeyA || key == KeyId::KeyS || key == KeyId::KeyD
}

/// Whether `key` is one of the four movement keys.
pub fn is_wasd(key: KeyId) -> (r: bool)
    ensures
        r == spec_is_wasd(key),
{
    matches!(key, KeyId::KeyW | KeyId::KeyA | KeyId::KeyS | KeyId::KeyD)
}

/// The keys that end an active capture session when pressed: chat submit
/// (either Enter) and chat cancel (Escape).
pub open spec fn spec_is_terminator(key: KeyId) -> bool {
    key == KeyId::Return || key == KeyId::KpReturn || key == KeyId::Escape
}

/// Whether a key-down of `key` ends an active capture session.
pub fn is_terminator(key: KeyId) -> (r: bool)
    ensures
        r == spec_is_terminator(key),
{
    matches!(key, KeyId::Return | KeyId::KpReturn | KeyId::Escape)
}

/// The dedicated "open chat" key, reserved at all times.
pub open spec fn spec_is_chat_open_key(key: KeyId) -> bool {
    key == KeyId::Slash
}

/// Whether `key` is the dedicated "open chat" key.
pub fn is_chat_open_key(key: KeyId) -> (r: bool)
    ensures
        r == spec_is_chat_open_key(key),
{
    matches!(key, KeyId::Slash)
}

/// Raw modifier keys that are never suppressed while capture is active,
/// so that system shortcuts keep working.
pub open spec fn spec_is_passthrough_modifier(key: KeyId) -> bool {
    key == KeyId::Alt || key == KeyId::AltGr || key == KeyId::MetaLeft || key
        == KeyId::MetaRight
}

/// Whether `key` is a raw modifier that always passes through.
pub fn is_passthrough_modifier(key: KeyId) -> (r: bool)
    ensures
        r == spec_is_passthrough_modifier(key),
{
    matches!(key, KeyId::Alt | KeyId::AltGr | KeyId::MetaLeft | KeyId::MetaRight)
}

/// Eligibility for latching under the `Full` persistence mode: every
/// key except the three that end a capture session (Enter, numpad
/// Enter, Escape) and the dedicated "open chat" key (reserved at all
/// times, so it must never be synthetically pressed into the game),
/// provided the key has an injection mapping (a key without one could
/// never be synthetically released).
pub open spec fn spec_full_latch_eligible(key: KeyId) -> bool {
    &&& !spec_is_terminator(key)
    &&& !spec_is_chat_open_key(key)
    &&& spec_virtual_key(key) is Some
}

/// Whether `key` may be latched under the `Full` persistence mode.
pub fn is_full_latch_eligible(key: KeyId) -> (r: bool)
    ensures
        r == spec_full_latch_eligible(key),
{
    if is_terminator(key) || is_chat_open_key(key) {
        return false;
    }
    key_to_virtual_key(key).is_some()
}

} // verus!
