use crate::events::{key_response, pointer_action, spec_on_event, Dispatch, EventResponse, EventStatus};
use crate::input::{InputEvent, WindowInput};
use vstd::prelude::*;

verus! {

/// Per-window state of the editor that its decisions depend on.
///
/// `window_shown` records that the first frame, which shows the component and
/// runs the setup handler, has been drawn. `prevent_key_event_propagation`
/// keeps keyboard events from the host while it is set.
#[derive(Debug, Clone, Copy, PartialEq, Eq, Structural)]
pub struct WindowHandler {
    pub window_shown: bool,
    pub prevent_key_event_propagation: bool,
}

/// The resize queue after a resize to `(width, height)` was queued.
pub open spec fn spec_queue_resize(pending: Seq<(u32, u32)>, width: u32, height: u32) -> Seq<(u32, u32)> {
    pending.push((width, height))
}

/// The resize that processing the queue applies, and the queue afterwards:
/// the most recent request, with every request dropped; nothing, on an empty queue.
pub open spec fn spec_process_pending_resizes(pending: Seq<(u32, u32)>) -> (Option<(u32, u32)>, Seq<(u32, u32)>) {
    if pending.len() == 0 {
        (None, pending)
    } else {
        (Some(pending.last()), Seq::empty())
    }
}

/// One step of drawing a frame, in the order `on_frame` lists them.
#[derive(Debug, Clone, Copy, PartialEq, Eq, Structural)]
pub enum FrameStep {
    /// Make the window's OpenGL context current.
    MakeContextCurrent,
    /// Hand the OpenGL loader to the adapter and create the renderer.
    InitializeRenderer,
    /// Show the Slint component.
    ShowComponent,
    /// Run the setup handler.
    RunSetupHandler,
    /// Run the event loop handler.
    RunEventLoopHandler,
    /// Advance Slint's timers and animations.
    UpdateTimersAndAnimations,
    /// Apply the most recent queued resize, if any.
    ProcessPendingResizes,
    /// Ask the component's window to redraw.
    RequestRedraw,
    /// Let Slint look up when its next timer is due.
    CheckNextTimerUpdate,
    /// Render the component, if the renderer exists.
    Render,
    /// Swap the OpenGL buffers.
    SwapBuffers,
}

/// The steps of a frame. The first frame of a window also creates the
/// renderer, shows the component and runs the setup handler, after making the
/// context current and before anything else; every frame runs the event loop
/// handler, advances timers, applies a queued resize, redraws, renders and
/// swaps the buffers.
pub open spec fn spec_frame_steps(first_frame: bool) -> Seq<FrameStep> {
    let opening = if first_frame {
        seq![FrameStep::InitializeRenderer, FrameStep::ShowComponent, FrameStep::RunSetupHandler]
    } else {
        Seq::empty()
    };
    seq![FrameStep::MakeContextCurrent] + opening + seq![
        FrameStep::RunEventLoopHandler,
        FrameStep::UpdateTimersAndAnimations,
        FrameStep::ProcessPendingResizes,
        FrameStep::RequestRedraw,
        FrameStep::CheckNextTimerUpdate,
        FrameStep::Render,
        FrameStep::SwapBuffers,
    ]
}

/// The steps of the next frame, and the state after it.
pub open spec fn spec_on_frame(handler: WindowHandler) -> (Seq<FrameStep>, WindowHandler) {
    (spec_frame_steps(!handler.window_shown), WindowHandler { window_shown: true, ..handler })
}

impl WindowHandler {
    /// The state of a window that was just opened: nothing shown yet, and
    /// keyboard events passed on to the host.
    pub fn new() -> (handler: Self)
        ensures
            !handler.window_shown,
            !handler.prevent_key_event_propagation,
    {
        WindowHandler { window_shown: false, prevent_key_event_propagation: false }
    }

    /// Keeps keyboard events from the host (`true`) or passes them on (`false`).
    pub fn set_prevent_key_event_propagation(&mut self, is_enabled: bool)
        ensures
            final(self).prevent_key_event_propagation == is_enabled,
            final(self).window_shown == old(self).window_shown,
    {
        self.prevent_key_event_propagation = is_enabled;
    }

    /// Records a frame and returns its steps, to be carried out in order.
    pub fn on_frame(&mut self) -> (steps: Vec<FrameStep>)
        ensures
            (steps@, *final(self)) == spec_on_frame(*old(self)),
    {
        let mut steps: Vec<FrameStep> = Vec::new();
        steps.push(FrameStep::MakeContextCurrent);
        if !self.window_shown {
            steps.push(FrameStep::InitializeRenderer);
            steps.push(FrameStep::ShowComponent);
            steps.push(FrameStep::RunSetupHandler);
        }
        steps.push(FrameStep::RunEventLoopHandler);
        steps.push(FrameStep::UpdateTimersAndAnimations);
        steps.push(FrameStep::ProcessPendingResizes);
        steps.push(FrameStep::RequestRedraw);
        steps.push(FrameStep::CheckNextTimerUpdate);
        steps.push(FrameStep::Render);
        steps.push(FrameStep::SwapBuffers);
        assert(steps@ == spec_frame_steps(!self.window_shown));
        self.window_shown = true;
        steps
    }

    /// Answers an event of the window: what Slint receives and whether the
    /// event is captured or left to the host.
    pub fn on_event(&self, event: InputEvent) -> (response: EventResponse)
        ensures
            response@ == spec_on_event(self.prevent_key_event_propagation, event),
    {
        match event {
            InputEvent::Mouse(m) => match pointer_action(m) {
                Some(a) => EventResponse { dispatch: Dispatch::Pointer(a), status: EventStatus::Captured },
                None => EventResponse { dispatch: Dispatch::Nothing, status: EventStatus::Ignored },
            },
            InputEvent::Keyboard(k) => key_response(self.prevent_key_event_propagation, &k),
            InputEvent::Window(w) => match w {
                WindowInput::Resized => EventResponse {
                    dispatch: Dispatch::WindowInfo,
                    status: EventStatus::Captured,
                },
                _ => EventResponse { dispatch: Dispatch::Nothing, status: EventStatus::Ignored },
            },
        }
    }

    /// Queues a resize to `(width, height)`, in logical pixels, to be applied next frame.
    pub fn queue_resize(pending: &mut Vec<(u32, u32)>, width: u32, height: u32)
        ensures
            final(pending)@ == spec_queue_resize(old(pending)@, width, height),
    {
        pending.push((width, height));
    }

    /// Takes the most recent queued resize and drops all others; `None` when
    /// none is queued.
    pub fn process_pending_resizes(pending: &mut Vec<(u32, u32)>) -> (resize: Option<(u32, u32)>)
        ensures
            (resize, final(pending)@) == spec_process_pending_resizes(old(pending)@),
    {
        let latest = pending.pop();
        pending.clear();
        latest
    }
}

} // verus!
