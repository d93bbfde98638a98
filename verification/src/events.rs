//! Dispatch from window events to the actions the event loop performs.

use vstd::prelude::*;

use crate::state::State;
use crate::state::toggled_pipeline;

verus! {

/// A window event, reduced to what the dispatch logic reads.  Sizes arrive
/// as plain pixel counts; for a scale-factor change the caller rescales the
/// current size before handing the event in.
#[derive(Clone, Copy, Debug, PartialEq, Eq, Structural)]
pub enum EventKind {
    /// A mouse button was pressed or released.
    MouseInput,
    /// The cursor moved; the clear colour follows it.
    CursorMoved,
    /// The window was resized to the given physical size.
    Resized { width: u32, height: u32 },
    /// The scale factor changed; the given size is the current one rescaled.
    ScaleFactorChanged { width: u32, height: u32 },
    /// The platform asked for the window to be redrawn.
    RedrawRequested,
    /// The pipeline-switch key (space) was pressed.
    SpacePressed,
    /// Any other key was pressed.
    OtherKeyPressed,
    /// The escape key was released.
    EscapeReleased,
    /// The user asked to close the window.
    CloseRequested,
    /// Any event the demo does not react to.
    Other,
}

/// What the event loop must do after an event was dispatched.
#[derive(Clone, Copy, Debug, PartialEq, Eq, Structural)]
pub enum Action {
    /// Nothing.
    Nothing,
    /// Recompute the clear colour from the cursor position and ask for a
    /// redraw.
    SetClearColor,
    /// Reconfigure the surface to the recorded size, then ask for a redraw.
    ConfigureAndRedraw,
    /// Ask for a redraw.
    Redraw,
    /// Draw one frame.
    Render,
    /// Ask for a redraw and report the newly selected pipeline.
    RedrawAndReportPipeline,
    /// Echo the pressed key.
    EchoKey,
    /// Report a transient rendering error.
    ReportError,
    /// Leave the event loop.
    Exit,
}

/// How one frame of rendering went, as the dispatch logic reads it.
#[derive(Clone, Copy, Debug, PartialEq, Eq, Structural)]
pub enum RenderOutcome {
    /// The frame was presented.
    Completed,
    /// The surface was lost and would need reconfiguring.
    Lost,
    /// No memory was left for a frame.
    OutOfMemory,
    /// Any other error; it is only reported.
    OtherError,
}

/// The state after one event: a resize request may record a new size, a
/// press of the switch key toggles the pipeline, everything else leaves the
/// state alone.
pub open spec fn event_step(s: State, e: EventKind) -> State {
    match e {
        EventKind::Resized { width, height } => if s.accepts_resize(width, height) {
            State { width, height, ..s }
        } else {
            s
        },
        EventKind::ScaleFactorChanged { width, height } => if s.accepts_resize(width, height) {
            State { width, height, ..s }
        } else {
            s
        },
        EventKind::SpacePressed => State {
            current_pipeline: toggled_pipeline(s.current_pipeline),
            ..s
        },
        _ => s,
    }
}

/// The action owed after one event.
pub open spec fn event_action(s: State, e: EventKind) -> Action {
    match e {
        EventKind::MouseInput => Action::Nothing,
        EventKind::CursorMoved => Action::SetClearColor,
        EventKind::Resized { width, height } => if s.accepts_resize(width, height) {
            Action::ConfigureAndRedraw
        } else {
            Action::Redraw
        },
        EventKind::ScaleFactorChanged { width, height } => if s.accepts_resize(width, height) {
            Action::ConfigureAndRedraw
        } else {
            Action::Redraw
        },
        EventKind::RedrawRequested => Action::Render,
        EventKind::SpacePressed => Action::RedrawAndReportPipeline,
        EventKind::OtherKeyPressed => Action::EchoKey,
        EventKind::EscapeReleased => Action::Exit,
        EventKind::CloseRequested => Action::Exit,
        EventKind::Other => Action::Nothing,
    }
}

/// The action owed after one frame of rendering.  A lost surface asks for a
/// reconfigure with the unchanged size, which the resize guard drops, so
/// nothing is owed for it.
pub open spec fn render_followup(r: RenderOutcome) -> Action {
    match r {
        RenderOutcome::Completed => Action::Nothing,
        RenderOutcome::Lost => Action::Nothing,
        RenderOutcome::OutOfMemory => Action::Exit,
        RenderOutcome::OtherError => Action::ReportError,
    }
}

impl State {
    /// Dispatch one window event: apply its effect on the state and return
    /// the action the event loop must perform.
    pub fn handle_event(&mut self, event: &EventKind) -> (a: Action)
        ensures
            *final(self) == event_step(*old(self), *event),
            a == event_action(*old(self), *event),
            old(self).wf() ==> final(self).wf(),
    {
        match event {
            EventKind::MouseInput => Action::Nothing,
            EventKind::CursorMoved => Action::SetClearColor,
            EventKind::Resized { width, height } => {
                if self.resize(*width, *height) {
                    Action::ConfigureAndRedraw
                } else {
                    Action::Redraw
                }
            },
            EventKind::ScaleFactorChanged { width, height } => {
                if self.resize(*width, *height) {
                    Action::ConfigureAndRedraw
                } else {
                    Action::Redraw
                }
            },
            EventKind::RedrawRequested => Action::Render,
            EventKind::SpacePressed => {
                self.toggle_pipeline();
                Action::RedrawAndReportPipeline
            },
            EventKind::OtherKeyPressed => Action::EchoKey,
            EventKind::EscapeReleased => Action::Exit,
            EventKind::CloseRequested => Action::Exit,
            EventKind::Other => Action::Nothing,
        }
    }

    /// Dispatch the outcome of one frame.  The state is left as it was: a
    /// lost surface leads to a resize request with the current size, which
    /// the resize guard ignores.
    pub fn handle_render_outcome(&mut self, outcome: &RenderOutcome) -> (a: Action)
        ensures
            *final(self) == *old(self),
            a == render_followup(*outcome),
    {
        match outcome {
            RenderOutcome::Completed => Action::Nothing,
            RenderOutcome::Lost => {
                let w: u32 = self.width;
                let h: u32 = self.height;
                self.resize(w, h);
                Action::Nothing
            },
            RenderOutcome::OutOfMemory => Action::Exit,
            RenderOutcome::OtherError => Action::ReportError,
        }
    }
}

/// Dispatching the pipeline-switch key twice returns the state to where it
/// started.
pub proof fn lemma_switch_twice(s: State)
    requires
        s.wf(),
    ensures
        event_step(event_step(s, EventKind::SpacePressed), EventKind::SpacePressed) == s,
{
}

/// Dispatch never breaks the state's well-formedness, whatever the event.
pub proof fn lemma_step_preserves_wf(s: State, e: EventKind)
    requires
        s.wf(),
    ensures
        event_step(s, e).wf(),
{
}

} // verus!
