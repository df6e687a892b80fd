use crate::input::{InputEvent, KeyInput, KeyState, MouseButton, MouseInput, ScrollUnit, WindowInput};
use crate::keys::{key_text, option_string_view, spec_key_text};
use vstd::prelude::*;

verus! {

/// A pointer button as Slint knows it.
#[derive(Debug, Clone, Copy, PartialEq, Eq, Structural)]
pub enum PointerButton {
    Left,
    Right,
    Middle,
}

/// A pointer event to hand to Slint. The caller supplies positions and
/// distances: the last cursor position for presses and releases, the wheel
/// distance times `pixels_per_scroll_unit` for scrolls.
#[derive(Debug, Clone, Copy, PartialEq, Eq, Structural)]
pub enum PointerAction {
    Moved,
    Pressed(PointerButton),
    Released(PointerButton),
    Scrolled(ScrollUnit),
}

/// Which key event Slint receives.
#[derive(Debug, Clone, Copy, PartialEq, Eq, Structural)]
pub enum KeyActionKind {
    Pressed,
    PressRepeated,
    Released,
}

/// What the editor hands on to Slint for an event.
#[derive(Debug, Clone, PartialEq, Eq)]
pub enum Dispatch {
    Pointer(PointerAction),
    /// A key event with its text.
    Key(KeyActionKind, String),
    /// The new size and scale factor of the window are to be taken over.
    WindowInfo,
    Nothing,
}

/// Whether the editor consumed an event or leaves it to the host.
#[derive(Debug, Clone, Copy, PartialEq, Eq, Structural)]
pub enum EventStatus {
    Captured,
    Ignored,
}

/// The editor's answer to an event.
#[derive(Debug, Clone, PartialEq, Eq)]
pub struct EventResponse {
    pub dispatch: Dispatch,
    pub status: EventStatus,
}

/// `Dispatch` with its text as a sequence of characters.
pub enum DispatchView {
    Pointer(PointerAction),
    Key(KeyActionKind, Seq<char>),
    WindowInfo,
    Nothing,
}

/// `EventResponse` with its text as a sequence of characters.
pub struct ResponseView {
    pub dispatch: DispatchView,
    pub status: EventStatus,
}

impl View for EventResponse {
    type V = ResponseView;

    open spec fn view(&self) -> ResponseView {
        ResponseView {
            dispatch: match self.dispatch {
                Dispatch::Pointer(a) => DispatchView::Pointer(a),
                Dispatch::Key(kind, text) => DispatchView::Key(kind, text@),
                Dispatch::WindowInfo => DispatchView::WindowInfo,
                Dispatch::Nothing => DispatchView::Nothing,
            },
            status: self.status,
        }
    }
}

/// The Slint button for a mouse button; Slint is sent only the three main buttons.
pub open spec fn spec_pointer_button(button: MouseButton) -> Option<PointerButton> {
    match button {
        MouseButton::Left => Some(PointerButton::Left),
        MouseButton::Right => Some(PointerButton::Right),
        MouseButton::Middle => Some(PointerButton::Middle),
        _ => None,
    }
}

/// The pointer event that Slint receives for a mouse event, if any.
pub open spec fn spec_pointer_action(event: MouseInput) -> Option<PointerAction> {
    match event {
        MouseInput::CursorMoved => Some(PointerAction::Moved),
        MouseInput::ButtonPressed(b) => match spec_pointer_button(b) {
            Some(p) => Some(PointerAction::Pressed(p)),
            None => None,
        },
        MouseInput::ButtonReleased(b) => match spec_pointer_button(b) {
            Some(p) => Some(PointerAction::Released(p)),
            None => None,
        },
        MouseInput::WheelScrolled(unit) => Some(PointerAction::Scrolled(unit)),
        MouseInput::Other => None,
    }
}

/// The kind of key event Slint receives for a key that went down or up.
pub open spec fn spec_key_action_kind(state: KeyState, repeat: bool) -> KeyActionKind {
    match state {
        KeyState::Down => if repeat {
            KeyActionKind::PressRepeated
        } else {
            KeyActionKind::Pressed
        },
        KeyState::Up => KeyActionKind::Released,
    }
}

/// The text that Slint receives for a keyboard event.
pub open spec fn key_input_text(key: KeyInput) -> Seq<char> {
    spec_key_text(option_string_view(key.character), key.code)
}

/// The answer to an event, given whether key events are kept from the host.
///
/// Mouse events that Slint receives are captured, the others ignored. A key
/// event with text goes to Slint; one without text goes nowhere. Every key
/// event is captured while key events are kept from the host, and left to the
/// host otherwise. A resize is captured and its new size taken over; the other
/// window events are ignored.
pub open spec fn spec_on_event(prevent_key_event_propagation: bool, event: InputEvent) -> ResponseView {
    match event {
        InputEvent::Mouse(m) => match spec_pointer_action(m) {
            Some(a) => ResponseView { dispatch: DispatchView::Pointer(a), status: EventStatus::Captured },
            None => ResponseView { dispatch: DispatchView::Nothing, status: EventStatus::Ignored },
        },
        InputEvent::Keyboard(k) => {
            let text = key_input_text(k);
            ResponseView {
                dispatch: if text.len() == 0 {
                    DispatchView::Nothing
                } else {
                    DispatchView::Key(spec_key_action_kind(k.state, k.repeat), text)
                },
                status: if prevent_key_event_propagation {
                    EventStatus::Captured
                } else {
                    EventStatus::Ignored
                },
            }
        },
        InputEvent::Window(w) => match w {
            WindowInput::Resized => ResponseView {
                dispatch: DispatchView::WindowInfo,
                status: EventStatus::Captured,
            },
            _ => ResponseView { dispatch: DispatchView::Nothing, status: EventStatus::Ignored },
        },
    }
}

/// Maps a mouse button to the Slint button, if Slint is sent that button.
pub fn pointer_button(button: MouseButton) -> (p: Option<PointerButton>)
    ensures
        p == spec_pointer_button(button),
{
    match button {
        MouseButton::Left => Some(PointerButton::Left),
        MouseButton::Right => Some(PointerButton::Right),
        MouseButton::Middle => Some(PointerButton::Middle),
        _ => None,
    }
}

/// Maps a mouse event to the pointer event that Slint receives, if any.
pub fn pointer_action(event: MouseInput) -> (a: Option<PointerAction>)
    ensures
        a == spec_pointer_action(event),
{
    match event {
        MouseInput::CursorMoved => Some(PointerAction::Moved),
        MouseInput::ButtonPressed(b) => match pointer_button(b) {
            Some(p) => Some(PointerAction::Pressed(p)),
            None => None,
        },
        MouseInput::ButtonReleased(b) => match pointer_button(b) {
            Some(p) => Some(PointerAction::Released(p)),
            None => None,
        },
        MouseInput::WheelScrolled(unit) => Some(PointerAction::Scrolled(unit)),
        MouseInput::Other => None,
    }
}

/// Logical pixels that one unit of a wheel scroll moves: 20 for a line, 1 for a pixel.
pub fn pixels_per_scroll_unit(unit: ScrollUnit) -> (pixels: u32)
    ensures
        pixels == (match unit {
            ScrollUnit::Lines => 20u32,
            ScrollUnit::Pixels => 1u32,
        }),
{
    match unit {
        ScrollUnit::Lines => 20,
        ScrollUnit::Pixels => 1,
    }
}

/// The kind of key event that Slint receives for a key that went down or up.
pub fn key_action_kind(state: KeyState, repeat: bool) -> (kind: KeyActionKind)
    ensures
        kind == spec_key_action_kind(state, repeat),
{
    match state {
        KeyState::Down => if repeat {
            KeyActionKind::PressRepeated
        } else {
            KeyActionKind::Pressed
        },
        KeyState::Up => KeyActionKind::Released,
    }
}

/// Answers a keyboard event.
pub fn key_response(prevent_key_event_propagation: bool, key: &KeyInput) -> (r: EventResponse)
    ensures
        r@ == spec_on_event(prevent_key_event_propagation, InputEvent::Keyboard(*key)),
{
    let text = key_text(&key.character, key.code);
    let status = if prevent_key_event_propagation {
        EventStatus::Captured
    } else {
        EventStatus::Ignored
    };
    if text.as_str().is_empty() {
        EventResponse { dispatch: Dispatch::Nothing, status }
    } else {
        EventResponse { dispatch: Dispatch::Key(key_action_kind(key.state, key.repeat), text), status }
    }
}

} // verus!
