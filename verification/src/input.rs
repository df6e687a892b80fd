use crate::keys::KeyCode;
use vstd::prelude::*;

verus! {

/// A mouse button as the window reports it.
#[derive(Debug, Clone, Copy, PartialEq, Eq, Structural)]
pub enum MouseButton {
    Left,
    Middle,
    Right,
    Back,
    Forward,
    Other(u8),
}

/// How a wheel scroll measures its distance: in lines or in pixels.
#[derive(Debug, Clone, Copy, PartialEq, Eq, Structural)]
pub enum ScrollUnit {
    Lines,
    Pixels,
}

/// A mouse event of the window. Positions and distances, which are
/// floating-point values, stay with the caller.
#[derive(Debug, Clone, Copy, PartialEq, Eq, Structural)]
pub enum MouseInput {
    CursorMoved,
    ButtonPressed(MouseButton),
    ButtonReleased(MouseButton),
    WheelScrolled(ScrollUnit),
    /// Cursor entering or leaving the window, and drag-and-drop events.
    Other,
}

/// Whether a key went down or came up.
#[derive(Debug, Clone, Copy, PartialEq, Eq, Structural)]
pub enum KeyState {
    Down,
    Up,
}

/// A keyboard event of the window.
///
/// `character` holds the characters the key produced, when the key is a
/// character key; `code` is the physical key.
#[derive(Debug, Clone, PartialEq, Eq)]
pub struct KeyInput {
    pub character: Option<String>,
    pub code: KeyCode,
    pub state: KeyState,
    pub repeat: bool,
}

/// A window event of the window.
#[derive(Debug, Clone, Copy, PartialEq, Eq, Structural)]
pub enum WindowInput {
    /// The window's size or scale factor changed; the new values stay with the caller.
    Resized,
    Focused,
    Unfocused,
    WillClose,
}

/// An event that the window hands to the editor.
#[derive(Debug, Clone, PartialEq, Eq)]
pub enum InputEvent {
    Mouse(MouseInput),
    Keyboard(KeyInput),
    Window(WindowInput),
}

} // verus!
