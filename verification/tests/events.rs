use nih_plug_slint::events::{
    pixels_per_scroll_unit, pointer_action, pointer_button, Dispatch, EventResponse, EventStatus,
    KeyActionKind, PointerAction, PointerButton,
};
use nih_plug_slint::input::{InputEvent, KeyInput, KeyState, MouseButton, MouseInput, ScrollUnit, WindowInput};
use nih_plug_slint::keys::{key_text, slint_key_for_code, KeyCode, SlintKey};
use nih_plug_slint::window_handler::WindowHandler;
use slint::platform::Key;

fn key(character: Option<&str>, code: KeyCode, state: KeyState, repeat: bool) -> InputEvent {
    InputEvent::Keyboard(KeyInput {
        character: character.map(|s| s.to_string()),
        code,
        state,
        repeat,
    })
}

fn captured(dispatch: Dispatch) -> EventResponse {
    EventResponse { dispatch, status: EventStatus::Captured }
}

fn ignored(dispatch: Dispatch) -> EventResponse {
    EventResponse { dispatch, status: EventStatus::Ignored }
}

#[test]
fn character_key_goes_to_slint_and_host() {
    let handler = WindowHandler::new();
    let r = handler.on_event(key(Some("a"), KeyCode::Other, KeyState::Down, false));
    assert_eq!(r, ignored(Dispatch::Key(KeyActionKind::Pressed, "a".to_string())));
}

#[test]
fn character_wins_over_code() {
    let handler = WindowHandler::new();
    let r = handler.on_event(key(Some("x"), KeyCode::Enter, KeyState::Up, false));
    assert_eq!(r, ignored(Dispatch::Key(KeyActionKind::Released, "x".to_string())));
}

#[test]
fn repeated_key_press() {
    let handler = WindowHandler::new();
    let r = handler.on_event(key(Some("b"), KeyCode::Other, KeyState::Down, true));
    assert_eq!(r.dispatch, Dispatch::Key(KeyActionKind::PressRepeated, "b".to_string()));
}

#[test]
fn prevented_key_events_are_captured() {
    let mut handler = WindowHandler::new();
    handler.set_prevent_key_event_propagation(true);
    let r = handler.on_event(key(Some("a"), KeyCode::Other, KeyState::Down, false));
    assert_eq!(r, captured(Dispatch::Key(KeyActionKind::Pressed, "a".to_string())));
    handler.set_prevent_key_event_propagation(false);
    let r = handler.on_event(key(Some("a"), KeyCode::Other, KeyState::Down, false));
    assert_eq!(r.status, EventStatus::Ignored);
}

#[test]
fn named_keys_use_slint_characters() {
    let handler = WindowHandler::new();
    let r = handler.on_event(key(None, KeyCode::Enter, KeyState::Down, false));
    assert_eq!(r, ignored(Dispatch::Key(KeyActionKind::Pressed, "\n".to_string())));
    let r = handler.on_event(key(None, KeyCode::ArrowUp, KeyState::Up, false));
    assert_eq!(r, ignored(Dispatch::Key(KeyActionKind::Released, "\u{F700}".to_string())));
    let r = handler.on_event(key(None, KeyCode::AltRight, KeyState::Down, true));
    assert_eq!(r.dispatch, Dispatch::Key(KeyActionKind::PressRepeated, "\u{0013}".to_string()));
}

#[test]
fn key_without_text_is_captured_when_prevented() {
    let mut handler = WindowHandler::new();
    handler.set_prevent_key_event_propagation(true);
    assert_eq!(handler.on_event(key(None, KeyCode::Other, KeyState::Down, false)), captured(Dispatch::Nothing));
    assert_eq!(handler.on_event(key(Some(""), KeyCode::Enter, KeyState::Up, false)), captured(Dispatch::Nothing));
}

#[test]
fn key_without_text_goes_to_host_by_default() {
    let handler = WindowHandler::new();
    assert_eq!(handler.on_event(key(None, KeyCode::Other, KeyState::Down, false)), ignored(Dispatch::Nothing));
    assert_eq!(handler.on_event(key(Some(""), KeyCode::Enter, KeyState::Down, true)), ignored(Dispatch::Nothing));
}

#[test]
fn key_codes_map_to_slint_keys() {
    let expected = [
        (KeyCode::Enter, SlintKey::Return),
        (KeyCode::Tab, SlintKey::Tab),
        (KeyCode::Space, SlintKey::Space),
        (KeyCode::Backspace, SlintKey::Backspace),
        (KeyCode::Escape, SlintKey::Escape),
        (KeyCode::ArrowUp, SlintKey::UpArrow),
        (KeyCode::ArrowDown, SlintKey::DownArrow),
        (KeyCode::ArrowLeft, SlintKey::LeftArrow),
        (KeyCode::ArrowRight, SlintKey::RightArrow),
        (KeyCode::ShiftLeft, SlintKey::Shift),
        (KeyCode::ShiftRight, SlintKey::ShiftR),
        (KeyCode::ControlLeft, SlintKey::Control),
        (KeyCode::ControlRight, SlintKey::ControlR),
        (KeyCode::AltLeft, SlintKey::Alt),
        (KeyCode::AltRight, SlintKey::AltGr),
        (KeyCode::MetaLeft, SlintKey::Meta),
        (KeyCode::MetaRight, SlintKey::MetaR),
    ];
    for (code, slint_key) in expected {
        assert_eq!(slint_key_for_code(code), Some(slint_key));
    }
    assert_eq!(slint_key_for_code(KeyCode::Other), None);
}

#[test]
fn key_text_matches_slint_key_table() {
    let expected = [
        (KeyCode::Enter, Key::Return),
        (KeyCode::Tab, Key::Tab),
        (KeyCode::Space, Key::Space),
        (KeyCode::Backspace, Key::Backspace),
        (KeyCode::Escape, Key::Escape),
        (KeyCode::ArrowUp, Key::UpArrow),
        (KeyCode::ArrowDown, Key::DownArrow),
        (KeyCode::ArrowLeft, Key::LeftArrow),
        (KeyCode::ArrowRight, Key::RightArrow),
        (KeyCode::ShiftLeft, Key::Shift),
        (KeyCode::ShiftRight, Key::ShiftR),
        (KeyCode::ControlLeft, Key::Control),
        (KeyCode::ControlRight, Key::ControlR),
        (KeyCode::AltLeft, Key::Alt),
        (KeyCode::AltRight, Key::AltGr),
        (KeyCode::MetaLeft, Key::Meta),
        (KeyCode::MetaRight, Key::MetaR),
    ];
    for (code, slint_key) in expected {
        assert_eq!(key_text(&None, code), char::from(slint_key).to_string());
    }
    assert_eq!(key_text(&None, KeyCode::Other), "");
    assert_eq!(key_text(&Some("é".to_string()), KeyCode::Other), "é");
}

#[test]
fn key_text_of_space_and_escape() {
    assert_eq!(key_text(&None, KeyCode::Space), " ");
    assert_eq!(key_text(&None, KeyCode::Escape), "\u{1b}");
    assert_eq!(key_text(&None, KeyCode::Backspace), "\u{8}");
    assert_eq!(key_text(&None, KeyCode::Tab), "\t");
}

#[test]
fn main_mouse_buttons_are_sent_to_slint() {
    let handler = WindowHandler::new();
    for (button, pointer) in [
        (MouseButton::Left, PointerButton::Left),
        (MouseButton::Right, PointerButton::Right),
        (MouseButton::Middle, PointerButton::Middle),
    ] {
        assert_eq!(pointer_button(button), Some(pointer));
        let r = handler.on_event(InputEvent::Mouse(MouseInput::ButtonPressed(button)));
        assert_eq!(r, captured(Dispatch::Pointer(PointerAction::Pressed(pointer))));
        let r = handler.on_event(InputEvent::Mouse(MouseInput::ButtonReleased(button)));
        assert_eq!(r, captured(Dispatch::Pointer(PointerAction::Released(pointer))));
    }
}

#[test]
fn other_mouse_buttons_are_ignored() {
    let handler = WindowHandler::new();
    for button in [MouseButton::Back, MouseButton::Forward, MouseButton::Other(7)] {
        assert_eq!(pointer_button(button), None);
        let r = handler.on_event(InputEvent::Mouse(MouseInput::ButtonPressed(button)));
        assert_eq!(r, ignored(Dispatch::Nothing));
        let r = handler.on_event(InputEvent::Mouse(MouseInput::ButtonReleased(button)));
        assert_eq!(r, ignored(Dispatch::Nothing));
    }
}

#[test]
fn cursor_and_wheel_are_captured() {
    let mut handler = WindowHandler::new();
    handler.set_prevent_key_event_propagation(true);
    assert_eq!(
        handler.on_event(InputEvent::Mouse(MouseInput::CursorMoved)),
        captured(Dispatch::Pointer(PointerAction::Moved))
    );
    assert_eq!(
        handler.on_event(InputEvent::Mouse(MouseInput::WheelScrolled(ScrollUnit::Lines))),
        captured(Dispatch::Pointer(PointerAction::Scrolled(ScrollUnit::Lines)))
    );
    assert_eq!(pointer_action(MouseInput::WheelScrolled(ScrollUnit::Pixels)), Some(PointerAction::Scrolled(ScrollUnit::Pixels)));
    assert_eq!(handler.on_event(InputEvent::Mouse(MouseInput::Other)), ignored(Dispatch::Nothing));
}

#[test]
fn scroll_lines_are_twenty_pixels() {
    assert_eq!(pixels_per_scroll_unit(ScrollUnit::Lines), 20);
    assert_eq!(pixels_per_scroll_unit(ScrollUnit::Pixels), 1);
}

#[test]
fn window_resize_is_captured_and_others_ignored() {
    let handler = WindowHandler::new();
    assert_eq!(
        handler.on_event(InputEvent::Window(WindowInput::Resized)),
        captured(Dispatch::WindowInfo)
    );
    for w in [WindowInput::Focused, WindowInput::Unfocused, WindowInput::WillClose] {
        assert_eq!(handler.on_event(InputEvent::Window(w)), ignored(Dispatch::Nothing));
    }
}
