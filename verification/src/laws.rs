use crate::events::{
    key_input_text, spec_key_action_kind, spec_on_event, spec_pointer_action, DispatchView,
    EventStatus, KeyActionKind, PointerAction, PointerButton, ResponseView,
};
use crate::input::{InputEvent, KeyInput, KeyState, MouseButton, MouseInput, ScrollUnit, WindowInput};
use crate::events::spec_pointer_button;
use crate::keys::{spec_key_text, spec_slint_key_for_code, KeyCode, SlintKey};
use crate::window_handler::{
    spec_frame_steps, spec_on_frame, spec_process_pending_resizes, spec_queue_resize, FrameStep,
    WindowHandler,
};
use vstd::prelude::*;

verus! {

/// Number of frames, among the next `n` frames of a window, that show the
/// component and run the setup handler.
pub open spec fn setup_runs(handler: WindowHandler, n: nat) -> nat
    decreases n,
{
    if n == 0 {
        0
    } else {
        let (steps, next) = spec_on_frame(handler);
        (if steps.contains(FrameStep::RunSetupHandler) { 1nat } else { 0nat }) + setup_runs(next, (n - 1) as nat)
    }
}

/// Once a window has been shown, no later frame shows it or runs the setup
/// handler again.
pub proof fn law_shown_window_runs_no_setup(handler: WindowHandler, n: nat)
    requires
        handler.window_shown,
    ensures
        setup_runs(handler, n) == 0,
    decreases n,
{
    if n > 0 {
        lemma_later_frame_steps();
        law_shown_window_runs_no_setup(spec_on_frame(handler).1, (n - 1) as nat);
    }
}

/// The steps of a frame after the first one hold no setup.
proof fn lemma_later_frame_steps()
    ensures
        !spec_frame_steps(false).contains(FrameStep::RunSetupHandler),
        spec_frame_steps(true)[3] == FrameStep::RunSetupHandler,
        spec_frame_steps(true).contains(FrameStep::RunSetupHandler),
{
    let s = spec_frame_steps(false);
    assert(s =~= seq![
        FrameStep::MakeContextCurrent,
        FrameStep::RunEventLoopHandler,
        FrameStep::UpdateTimersAndAnimations,
        FrameStep::ProcessPendingResizes,
        FrameStep::RequestRedraw,
        FrameStep::CheckNextTimerUpdate,
        FrameStep::Render,
        FrameStep::SwapBuffers,
    ]);
    assert(!s.contains(FrameStep::RunSetupHandler));
    assert(spec_frame_steps(true)[3] == FrameStep::RunSetupHandler);
}

/// The setup handler runs exactly once in the life of a window: on its first
/// frame, whatever number of frames follows.
pub proof fn law_setup_runs_once(handler: WindowHandler, n: nat)
    requires
        !handler.window_shown,
        n >= 1,
    ensures
        setup_runs(handler, n) == 1,
{
    lemma_later_frame_steps();
    law_shown_window_runs_no_setup(spec_on_frame(handler).1, (n - 1) as nat);
}

/// On the first frame, the component is shown and the setup handler runs
/// before the event loop handler; every frame runs the event loop handler
/// once and ends by swapping the buffers.
pub proof fn law_setup_precedes_event_loop(first_frame: bool)
    ensures
        first_frame ==> spec_frame_steps(first_frame)[2] == FrameStep::ShowComponent
            && spec_frame_steps(first_frame)[3] == FrameStep::RunSetupHandler
            && spec_frame_steps(first_frame)[4] == FrameStep::RunEventLoopHandler,
        !first_frame ==> spec_frame_steps(first_frame)[1] == FrameStep::RunEventLoopHandler,
        spec_frame_steps(first_frame).last() == FrameStep::SwapBuffers,
        spec_frame_steps(first_frame)[0] == FrameStep::MakeContextCurrent,
{
}

/// Of all resizes queued before a frame, that frame applies the most recent
/// one, and leaves the queue empty.
pub proof fn law_latest_resize_wins(pending: Seq<(u32, u32)>, width: u32, height: u32)
    ensures
        spec_process_pending_resizes(spec_queue_resize(pending, width, height)) == (
            Some((width, height)),
            Seq::<(u32, u32)>::empty(),
        ),
{
}

/// A queue that was just processed holds nothing more to apply.
pub proof fn law_processed_queue_is_drained(pending: Seq<(u32, u32)>)
    ensures
        spec_process_pending_resizes(spec_process_pending_resizes(pending).1).0 is None,
{
}

/// A keyboard event with text always reaches Slint, with that text.
pub proof fn law_key_events_reach_slint(prevent: bool, key: KeyInput)
    requires
        key_input_text(key).len() > 0,
    ensures
        spec_on_event(prevent, InputEvent::Keyboard(key)).dispatch == DispatchView::Key(
            spec_key_action_kind(key.state, key.repeat),
            key_input_text(key),
        ),
{
}

/// A keyboard event without text goes nowhere in the editor.
pub proof fn law_key_events_without_text_are_not_sent(prevent: bool, key: KeyInput)
    requires
        key_input_text(key).len() == 0,
    ensures
        spec_on_event(prevent, InputEvent::Keyboard(key)).dispatch == DispatchView::Nothing,
{
}

/// While key events are kept from the host, every keyboard event is
/// captured, with or without text; otherwise, as in a freshly opened window,
/// every keyboard event is passed on to the host.
pub proof fn law_key_propagation_follows_setting(is_enabled: bool, key: KeyInput)
    ensures
        spec_on_event(false, InputEvent::Keyboard(key)).status == EventStatus::Ignored,
        spec_on_event(true, InputEvent::Keyboard(key)).status == EventStatus::Captured,
        (spec_on_event(is_enabled, InputEvent::Keyboard(key)).status == EventStatus::Captured)
            <==> is_enabled,
{
}

/// A mouse event is captured exactly when Slint receives it, and the setting
/// for keyboard events has no bearing on it.
pub proof fn law_mouse_captured_iff_dispatched(prevent: bool, event: MouseInput)
    ensures
        (spec_on_event(prevent, InputEvent::Mouse(event)).status == EventStatus::Captured)
            <==> (spec_on_event(prevent, InputEvent::Mouse(event)).dispatch is Pointer),
        spec_on_event(prevent, InputEvent::Mouse(event)) == spec_on_event(!prevent, InputEvent::Mouse(event)),
{
}

/// Only the left, right and middle buttons reach Slint; presses of other
/// buttons are left to the host.
pub proof fn law_only_main_buttons_reach_slint(button: MouseButton)
    ensures
        (spec_pointer_action(MouseInput::ButtonPressed(button)) is Some) <==> (button
            == MouseButton::Left || button == MouseButton::Right || button == MouseButton::Middle),
        button == MouseButton::Left ==> spec_pointer_action(MouseInput::ButtonPressed(button))
            == Some(PointerAction::Pressed(PointerButton::Left)),
{
}

/// A resize of the window is captured and its new size taken over; focus
/// changes and closing are left to the host.
pub proof fn law_window_events(prevent: bool, event: WindowInput)
    ensures
        (spec_on_event(prevent, InputEvent::Window(event)).status == EventStatus::Captured)
            <==> (event == WindowInput::Resized),
        (spec_on_event(prevent, InputEvent::Window(event)).dispatch is WindowInfo)
            <==> (event == WindowInput::Resized),
{
}

/// What each mouse event is answered with: a cursor move, a press or
/// release of the left, right or middle button, and a wheel scroll in lines
/// or in pixels go to Slint as the matching pointer event and are captured;
/// presses and releases of other buttons and all other mouse events go
/// nowhere and are left to the host. The key setting plays no part.
pub proof fn law_mouse_event_answers(prevent: bool, button: MouseButton, unit: ScrollUnit)
    ensures
        spec_on_event(prevent, InputEvent::Mouse(MouseInput::CursorMoved)) == (ResponseView {
            dispatch: DispatchView::Pointer(PointerAction::Moved),
            status: EventStatus::Captured,
        }),
        spec_on_event(prevent, InputEvent::Mouse(MouseInput::WheelScrolled(unit))) == (ResponseView {
            dispatch: DispatchView::Pointer(PointerAction::Scrolled(unit)),
            status: EventStatus::Captured,
        }),
        spec_on_event(prevent, InputEvent::Mouse(MouseInput::Other)) == (ResponseView {
            dispatch: DispatchView::Nothing,
            status: EventStatus::Ignored,
        }),
        button == MouseButton::Left ==> spec_on_event(prevent, InputEvent::Mouse(MouseInput::ButtonPressed(button)))
            == (ResponseView {
            dispatch: DispatchView::Pointer(PointerAction::Pressed(PointerButton::Left)),
            status: EventStatus::Captured,
        }) && spec_on_event(prevent, InputEvent::Mouse(MouseInput::ButtonReleased(button)))
            == (ResponseView {
            dispatch: DispatchView::Pointer(PointerAction::Released(PointerButton::Left)),
            status: EventStatus::Captured,
        }),
        button == MouseButton::Right ==> spec_on_event(prevent, InputEvent::Mouse(MouseInput::ButtonPressed(button)))
            == (ResponseView {
            dispatch: DispatchView::Pointer(PointerAction::Pressed(PointerButton::Right)),
            status: EventStatus::Captured,
        }) && spec_on_event(prevent, InputEvent::Mouse(MouseInput::ButtonReleased(button)))
            == (ResponseView {
            dispatch: DispatchView::Pointer(PointerAction::Released(PointerButton::Right)),
            status: EventStatus::Captured,
        }),
        button == MouseButton::Middle ==> spec_on_event(prevent, InputEvent::Mouse(MouseInput::ButtonPressed(button)))
            == (ResponseView {
            dispatch: DispatchView::Pointer(PointerAction::Pressed(PointerButton::Middle)),
            status: EventStatus::Captured,
        }) && spec_on_event(prevent, InputEvent::Mouse(MouseInput::ButtonReleased(button)))
            == (ResponseView {
            dispatch: DispatchView::Pointer(PointerAction::Released(PointerButton::Middle)),
            status: EventStatus::Captured,
        }),
        !(button == MouseButton::Left || button == MouseButton::Right || button == MouseButton::Middle)
            ==> spec_on_event(prevent, InputEvent::Mouse(MouseInput::ButtonPressed(button)))
            == (ResponseView { dispatch: DispatchView::Nothing, status: EventStatus::Ignored })
            && spec_on_event(prevent, InputEvent::Mouse(MouseInput::ButtonReleased(button)))
            == (ResponseView { dispatch: DispatchView::Nothing, status: EventStatus::Ignored }),
{
}

/// The characters a key produced are the text Slint receives, exactly as
/// they are, whatever the key's code.
pub proof fn law_typed_characters_are_kept(chars: Seq<char>, code: KeyCode)
    ensures
        spec_key_text(Some(chars), code) == chars,
{
}

/// A key that produced characters is sent to Slint with exactly those
/// characters: as a press when it went down, as a repeated press when it is
/// held down, and as a release when it came up.
pub proof fn law_typed_key_event_answer(prevent: bool, key: KeyInput, s: String)
    requires
        key.character == Some(s),
        s@.len() > 0,
    ensures
        key.state == KeyState::Down && !key.repeat ==> spec_on_event(prevent, InputEvent::Keyboard(key)).dispatch
            == DispatchView::Key(KeyActionKind::Pressed, s@),
        key.state == KeyState::Down && key.repeat ==> spec_on_event(prevent, InputEvent::Keyboard(key)).dispatch
            == DispatchView::Key(KeyActionKind::PressRepeated, s@),
        key.state == KeyState::Up ==> spec_on_event(prevent, InputEvent::Keyboard(key)).dispatch
            == DispatchView::Key(KeyActionKind::Released, s@),
{
}

/// A key without characters is named by one character when its code is one
/// of the named codes, and by none otherwise; different named codes give
/// different characters, and the arrow keys, Enter, Tab, Space, Backspace and
/// Escape give the characters Slint uses for them.
pub proof fn law_named_key_texts(code: KeyCode, other: KeyCode)
    ensures
        (spec_key_text(None, code).len() == 0) <==> (code == KeyCode::Other),
        code != KeyCode::Other ==> spec_key_text(None, code).len() == 1,
        code != KeyCode::Other && other != KeyCode::Other && code != other ==> spec_key_text(None, code)
            != spec_key_text(None, other),
        spec_key_text(None, KeyCode::Enter) == seq!['\u{000a}'],
        spec_key_text(None, KeyCode::Tab) == seq!['\u{0009}'],
        spec_key_text(None, KeyCode::Space) == seq![' '],
        spec_key_text(None, KeyCode::Backspace) == seq!['\u{0008}'],
        spec_key_text(None, KeyCode::Escape) == seq!['\u{001b}'],
        spec_key_text(None, KeyCode::ArrowUp) == seq!['\u{F700}'],
        spec_key_text(None, KeyCode::ArrowDown) == seq!['\u{F701}'],
        spec_key_text(None, KeyCode::ArrowLeft) == seq!['\u{F702}'],
        spec_key_text(None, KeyCode::ArrowRight) == seq!['\u{F703}'],
        spec_key_text(None, KeyCode::ShiftLeft) == seq!['\u{0010}'],
        spec_key_text(None, KeyCode::ShiftRight) == seq!['\u{0015}'],
        spec_key_text(None, KeyCode::ControlLeft) == seq!['\u{0011}'],
        spec_key_text(None, KeyCode::ControlRight) == seq!['\u{0016}'],
        spec_key_text(None, KeyCode::AltLeft) == seq!['\u{0012}'],
        spec_key_text(None, KeyCode::AltRight) == seq!['\u{0013}'],
        spec_key_text(None, KeyCode::MetaLeft) == seq!['\u{0017}'],
        spec_key_text(None, KeyCode::MetaRight) == seq!['\u{0018}'],
{
    if code != KeyCode::Other && other != KeyCode::Other && code != other {
        assert(spec_key_text(None, code)[0] != spec_key_text(None, other)[0]);
    }
}

/// The steps of a frame depend only on whether the window was shown before:
/// not on whether key events are kept from the host.
pub proof fn law_frame_steps_ignore_key_setting(handler: WindowHandler)
    ensures
        spec_on_frame(handler).0 == spec_on_frame(
            WindowHandler {
                prevent_key_event_propagation: !handler.prevent_key_event_propagation,
                ..handler
            },
        ).0,
        spec_on_frame(handler).1.prevent_key_event_propagation == handler.prevent_key_event_propagation,
        spec_on_frame(handler).1.window_shown,
{
}

/// The exact steps of every frame: a frame of a window already shown makes
/// the context current, runs the event loop handler, advances timers,
/// applies a queued resize, redraws, checks the timers, renders and swaps the
/// buffers; the first frame also creates the renderer, shows the component
/// and runs the setup handler right after making the context current.
pub proof fn law_frame_steps(handler: WindowHandler)
    ensures
        handler.window_shown ==> spec_on_frame(handler).0 == seq![
            FrameStep::MakeContextCurrent,
            FrameStep::RunEventLoopHandler,
            FrameStep::UpdateTimersAndAnimations,
            FrameStep::ProcessPendingResizes,
            FrameStep::RequestRedraw,
            FrameStep::CheckNextTimerUpdate,
            FrameStep::Render,
            FrameStep::SwapBuffers,
        ],
        !handler.window_shown ==> spec_on_frame(handler).0 == seq![
            FrameStep::MakeContextCurrent,
            FrameStep::InitializeRenderer,
            FrameStep::ShowComponent,
            FrameStep::RunSetupHandler,
            FrameStep::RunEventLoopHandler,
            FrameStep::UpdateTimersAndAnimations,
            FrameStep::ProcessPendingResizes,
            FrameStep::RequestRedraw,
            FrameStep::CheckNextTimerUpdate,
            FrameStep::Render,
            FrameStep::SwapBuffers,
        ],
        spec_on_frame(handler).0.last() == FrameStep::SwapBuffers,
{
    let steps = spec_on_frame(handler).0;
    if handler.window_shown {
        assert(steps =~= seq![
            FrameStep::MakeContextCurrent,
            FrameStep::RunEventLoopHandler,
            FrameStep::UpdateTimersAndAnimations,
            FrameStep::ProcessPendingResizes,
            FrameStep::RequestRedraw,
            FrameStep::CheckNextTimerUpdate,
            FrameStep::Render,
            FrameStep::SwapBuffers,
        ]);
    } else {
        assert(steps =~= seq![
            FrameStep::MakeContextCurrent,
            FrameStep::InitializeRenderer,
            FrameStep::ShowComponent,
            FrameStep::RunSetupHandler,
            FrameStep::RunEventLoopHandler,
            FrameStep::UpdateTimersAndAnimations,
            FrameStep::ProcessPendingResizes,
            FrameStep::RequestRedraw,
            FrameStep::CheckNextTimerUpdate,
            FrameStep::Render,
            FrameStep::SwapBuffers,
        ]);
    }
}

/// Which Slint key each key code is sent as: the left modifier keys as
/// Slint's plain modifiers, the right ones as Slint's right-hand variants
/// (the right Alt as AltGr), Enter as Return and the arrows as Slint's
/// arrows; codes outside this list are sent as no key.
pub proof fn law_key_codes_to_slint_keys(code: KeyCode)
    ensures
        spec_slint_key_for_code(KeyCode::Enter) == Some(SlintKey::Return),
        spec_slint_key_for_code(KeyCode::Tab) == Some(SlintKey::Tab),
        spec_slint_key_for_code(KeyCode::Space) == Some(SlintKey::Space),
        spec_slint_key_for_code(KeyCode::Backspace) == Some(SlintKey::Backspace),
        spec_slint_key_for_code(KeyCode::Escape) == Some(SlintKey::Escape),
        spec_slint_key_for_code(KeyCode::ArrowUp) == Some(SlintKey::UpArrow),
        spec_slint_key_for_code(KeyCode::ArrowDown) == Some(SlintKey::DownArrow),
        spec_slint_key_for_code(KeyCode::ArrowLeft) == Some(SlintKey::LeftArrow),
        spec_slint_key_for_code(KeyCode::ArrowRight) == Some(SlintKey::RightArrow),
        spec_slint_key_for_code(KeyCode::ShiftLeft) == Some(SlintKey::Shift),
        spec_slint_key_for_code(KeyCode::ShiftRight) == Some(SlintKey::ShiftR),
        spec_slint_key_for_code(KeyCode::ControlLeft) == Some(SlintKey::Control),
        spec_slint_key_for_code(KeyCode::ControlRight) == Some(SlintKey::ControlR),
        spec_slint_key_for_code(KeyCode::AltLeft) == Some(SlintKey::Alt),
        spec_slint_key_for_code(KeyCode::AltRight) == Some(SlintKey::AltGr),
        spec_slint_key_for_code(KeyCode::MetaLeft) == Some(SlintKey::Meta),
        spec_slint_key_for_code(KeyCode::MetaRight) == Some(SlintKey::MetaR),
        (spec_slint_key_for_code(code) is None) <==> (code == KeyCode::Other),
{
}

/// A key that went down is a press, or a repeated press when it is held;
/// a key that came up is a release.
pub proof fn law_key_action_kinds(repeat: bool)
    ensures
        spec_key_action_kind(KeyState::Down, false) == KeyActionKind::Pressed,
        spec_key_action_kind(KeyState::Down, true) == KeyActionKind::PressRepeated,
        spec_key_action_kind(KeyState::Up, repeat) == KeyActionKind::Released,
{
}

/// Each of the three main mouse buttons is sent as the same Slint button;
/// the others are not sent.
pub proof fn law_pointer_buttons(n: u8)
    ensures
        spec_pointer_button(MouseButton::Left) == Some(PointerButton::Left),
        spec_pointer_button(MouseButton::Right) == Some(PointerButton::Right),
        spec_pointer_button(MouseButton::Middle) == Some(PointerButton::Middle),
        spec_pointer_button(MouseButton::Back) is None,
        spec_pointer_button(MouseButton::Forward) is None,
        spec_pointer_button(MouseButton::Other(n)) is None,
{
}

/// Queuing a resize appends it behind the earlier requests; processing the
/// queue applies its last request, if any, and leaves it empty, or leaves an
/// empty queue as it is.
pub proof fn law_resize_queue(pending: Seq<(u32, u32)>, width: u32, height: u32)
    ensures
        spec_queue_resize(pending, width, height).len() == pending.len() + 1,
        spec_queue_resize(pending, width, height).last() == (width, height),
        spec_queue_resize(pending, width, height).take(pending.len() as int) == pending,
        pending.len() > 0 ==> spec_process_pending_resizes(pending).0 == Some(pending[pending.len() - 1]),
        pending.len() == 0 ==> spec_process_pending_resizes(pending).0 is None,
        spec_process_pending_resizes(pending).1.len() == 0,
{
    assert(spec_queue_resize(pending, width, height).take(pending.len() as int) =~= pending);
}

} // verus!
