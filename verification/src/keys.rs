use slint::platform::Key as NamedKey;
use vstd::prelude::*;

verus! {

/// The physical key codes that the editor names when the key produces no
/// character; every other code is `Other`.
#[derive(Debug, Clone, Copy, PartialEq, Eq, Structural)]
pub enum KeyCode {
    Enter,
    Tab,
    Space,
    Backspace,
    Escape,
    ArrowUp,
    ArrowDown,
    ArrowLeft,
    ArrowRight,
    ShiftLeft,
    ShiftRight,
    ControlLeft,
    ControlRight,
    AltLeft,
    AltRight,
    MetaLeft,
    MetaRight,
    Other,
}

/// The named keys of Slint that the editor sends for a `KeyCode`.
#[derive(Debug, Clone, Copy, PartialEq, Eq, Structural)]
pub enum SlintKey {
    Return,
    Tab,
    Space,
    Backspace,
    Escape,
    UpArrow,
    DownArrow,
    LeftArrow,
    RightArrow,
    Shift,
    ShiftR,
    Control,
    ControlR,
    Alt,
    AltGr,
    Meta,
    MetaR,
}

/// The character by which Slint stands for each named key in its text events.
pub open spec fn slint_key_char(key: SlintKey) -> char {
    match key {
        SlintKey::Return => '\u{000a}',
        SlintKey::Tab => '\u{0009}',
        SlintKey::Space => '\u{0020}',
        SlintKey::Backspace => '\u{0008}',
        SlintKey::Escape => '\u{001b}',
        SlintKey::UpArrow => '\u{F700}',
        SlintKey::DownArrow => '\u{F701}',
        SlintKey::LeftArrow => '\u{F702}',
        SlintKey::RightArrow => '\u{F703}',
        SlintKey::Shift => '\u{0010}',
        SlintKey::ShiftR => '\u{0015}',
        SlintKey::Control => '\u{0011}',
        SlintKey::ControlR => '\u{0016}',
        SlintKey::Alt => '\u{0012}',
        SlintKey::AltGr => '\u{0013}',
        SlintKey::Meta => '\u{0017}',
        SlintKey::MetaR => '\u{0018}',
    }
}

/// Calls `From<slint::platform::Key> for char` on the Slint key named by `key`.
/// The contract is the character that slint's key table assigns to that key.
#[verifier::external_body]
fn named_key_char(key: SlintKey) -> (c: char)
    ensures
        c == slint_key_char(key),
{
    char::from(match key {
        SlintKey::Return => NamedKey::Return, SlintKey::Tab => NamedKey::Tab,
        SlintKey::Space => NamedKey::Space, SlintKey::Backspace => NamedKey::Backspace,
        SlintKey::Escape => NamedKey::Escape, SlintKey::UpArrow => NamedKey::UpArrow,
        SlintKey::DownArrow => NamedKey::DownArrow, SlintKey::LeftArrow => NamedKey::LeftArrow,
        SlintKey::RightArrow => NamedKey::RightArrow, SlintKey::Shift => NamedKey::Shift,
        SlintKey::ShiftR => NamedKey::ShiftR, SlintKey::Control => NamedKey::Control,
        SlintKey::ControlR => NamedKey::ControlR, SlintKey::Alt => NamedKey::Alt,
        SlintKey::AltGr => NamedKey::AltGr, SlintKey::Meta => NamedKey::Meta,
        SlintKey::MetaR => NamedKey::MetaR,
    })
}

/// Calls `ToString::to_string` on a `char`: the string made of that one character.
#[verifier::external_body]
fn char_to_string(c: char) -> (s: String)
    ensures
        s@ == seq![c],
{
    c.to_string()
}

/// The Slint key that stands for a key code, where the editor names one.
pub open spec fn spec_slint_key_for_code(code: KeyCode) -> Option<SlintKey> {
    match code {
        KeyCode::Enter => Some(SlintKey::Return),
        KeyCode::Tab => Some(SlintKey::Tab),
        KeyCode::Space => Some(SlintKey::Space),
        KeyCode::Backspace => Some(SlintKey::Backspace),
        KeyCode::Escape => Some(SlintKey::Escape),
        KeyCode::ArrowUp => Some(SlintKey::UpArrow),
        KeyCode::ArrowDown => Some(SlintKey::DownArrow),
        KeyCode::ArrowLeft => Some(SlintKey::LeftArrow),
        KeyCode::ArrowRight => Some(SlintKey::RightArrow),
        KeyCode::ShiftLeft => Some(SlintKey::Shift),
        KeyCode::ShiftRight => Some(SlintKey::ShiftR),
        KeyCode::ControlLeft => Some(SlintKey::Control),
        KeyCode::ControlRight => Some(SlintKey::ControlR),
        KeyCode::AltLeft => Some(SlintKey::Alt),
        KeyCode::AltRight => Some(SlintKey::AltGr),
        KeyCode::MetaLeft => Some(SlintKey::Meta),
        KeyCode::MetaRight => Some(SlintKey::MetaR),
        KeyCode::Other => None,
    }
}

/// Maps a physical key code to the Slint key that the editor sends for it.
pub fn slint_key_for_code(code: KeyCode) -> (key: Option<SlintKey>)
    ensures
        key == spec_slint_key_for_code(code),
{
    match code {
        KeyCode::Enter => Some(SlintKey::Return),
        KeyCode::Tab => Some(SlintKey::Tab),
        KeyCode::Space => Some(SlintKey::Space),
        KeyCode::Backspace => Some(SlintKey::Backspace),
        KeyCode::Escape => Some(SlintKey::Escape),
        KeyCode::ArrowUp => Some(SlintKey::UpArrow),
        KeyCode::ArrowDown => Some(SlintKey::DownArrow),
        KeyCode::ArrowLeft => Some(SlintKey::LeftArrow),
        KeyCode::ArrowRight => Some(SlintKey::RightArrow),
        KeyCode::ShiftLeft => Some(SlintKey::Shift),
        KeyCode::ShiftRight => Some(SlintKey::ShiftR),
        KeyCode::ControlLeft => Some(SlintKey::Control),
        KeyCode::ControlRight => Some(SlintKey::ControlR),
        KeyCode::AltLeft => Some(SlintKey::Alt),
        KeyCode::AltRight => Some(SlintKey::AltGr),
        KeyCode::MetaLeft => Some(SlintKey::Meta),
        KeyCode::MetaRight => Some(SlintKey::MetaR),
        KeyCode::Other => None,
    }
}

/// The text of a key event: the characters the key produced, if it produced
/// any; else the character of the Slint key named for its code; else nothing.
pub open spec fn spec_key_text(character: Option<Seq<char>>, code: KeyCode) -> Seq<char> {
    match character {
        Some(chars) => chars,
        None => match spec_slint_key_for_code(code) {
            Some(key) => seq![slint_key_char(key)],
            None => Seq::empty(),
        },
    }
}

/// The view of an optional string.
pub open spec fn option_string_view(s: Option<String>) -> Option<Seq<char>> {
    match s {
        Some(t) => Some(t@),
        None => None,
    }
}

/// Computes the text that Slint receives for a key event.
pub fn key_text(character: &Option<String>, code: KeyCode) -> (text: String)
    ensures
        text@ == spec_key_text(option_string_view(*character), code),
{
    match character {
        Some(chars) => chars.clone(),
        None => match slint_key_for_code(code) {
            Some(key) => char_to_string(named_key_char(key)),
            None => String::new(),
        },
    }
}

} // verus!
