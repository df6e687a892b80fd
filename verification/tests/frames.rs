use nih_plug_slint::window_handler::{FrameStep, WindowHandler};

#[test]
fn new_window_is_not_shown_and_passes_keys_on() {
    let handler = WindowHandler::new();
    assert!(!handler.window_shown);
    assert!(!handler.prevent_key_event_propagation);
}

#[test]
fn only_first_frame_sets_up_the_window() {
    let mut handler = WindowHandler::new();
    assert_eq!(
        handler.on_frame(),
        vec![
            FrameStep::MakeContextCurrent,
            FrameStep::InitializeRenderer,
            FrameStep::ShowComponent,
            FrameStep::RunSetupHandler,
            FrameStep::RunEventLoopHandler,
            FrameStep::UpdateTimersAndAnimations,
            FrameStep::ProcessPendingResizes,
            FrameStep::RequestRedraw,
            FrameStep::CheckNextTimerUpdate,
            FrameStep::Render,
            FrameStep::SwapBuffers,
        ]
    );
    assert!(handler.window_shown);
    for _ in 0..10 {
        assert_eq!(
            handler.on_frame(),
            vec![
                FrameStep::MakeContextCurrent,
                FrameStep::RunEventLoopHandler,
                FrameStep::UpdateTimersAndAnimations,
                FrameStep::ProcessPendingResizes,
                FrameStep::RequestRedraw,
                FrameStep::CheckNextTimerUpdate,
                FrameStep::Render,
                FrameStep::SwapBuffers,
            ]
        );
    }
    assert!(handler.window_shown);
}

#[test]
fn setup_runs_once_over_many_frames() {
    let mut handler = WindowHandler::new();
    let mut setups = 0;
    let mut event_loops = 0;
    for _ in 0..25 {
        let steps = handler.on_frame();
        setups += steps.iter().filter(|s| **s == FrameStep::RunSetupHandler).count();
        event_loops += steps.iter().filter(|s| **s == FrameStep::RunEventLoopHandler).count();
    }
    assert_eq!(setups, 1);
    assert_eq!(event_loops, 25);
}

#[test]
fn frames_keep_the_key_setting() {
    let mut handler = WindowHandler::new();
    handler.set_prevent_key_event_propagation(true);
    handler.on_frame();
    assert!(handler.prevent_key_event_propagation);
}

#[test]
fn key_setting_can_be_toggled() {
    let mut handler = WindowHandler::new();
    handler.set_prevent_key_event_propagation(true);
    assert!(handler.prevent_key_event_propagation);
    handler.set_prevent_key_event_propagation(false);
    assert!(!handler.prevent_key_event_propagation);
    assert!(!handler.window_shown);
}
