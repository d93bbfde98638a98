//! Surface size and pipeline selection.

use vstd::prelude::*;

verus! {

/// Which of the demo's two render pipelines a frame is drawn with.
#[derive(Clone, Copy, Debug, PartialEq, Eq, Structural)]
pub enum PipelineChoice {
    First,
    Second,
}

/// The pipeline selector after one press of the switch key: 1 becomes 2,
/// anything else becomes 1.
pub open spec fn toggled_pipeline(p: u8) -> u8 {
    if p == 1 {
        2
    } else {
        1
    }
}

/// The pipeline drawn with for a given selector value: 2 picks the second
/// pipeline, every other value falls back to the first.
pub open spec fn chosen_pipeline(p: u8) -> PipelineChoice {
    if p == 2 {
        PipelineChoice::Second
    } else {
        PipelineChoice::First
    }
}

/// What the demo remembers between events: the physical size of the render
/// surface and which pipeline is selected.
#[derive(Clone, Copy, Debug, PartialEq, Eq, Structural)]
pub struct State {
    pub width: u32,
    pub height: u32,
    pub current_pipeline: u8,
}

impl State {
    /// The pipeline selector only ever holds 1 or 2.
    pub open spec fn wf(self) -> bool {
        self.current_pipeline == 1 || self.current_pipeline == 2
    }

    /// Whether a requested size changes the surface configuration: both
    /// dimensions must be non-zero and at least one must differ from the
    /// current size.
    pub open spec fn accepts_resize(self, new_width: u32, new_height: u32) -> bool {
        &&& new_width > 0
        &&& new_height > 0
        &&& (new_width != self.width || new_height != self.height)
    }

    /// A fresh state starts on the first pipeline.
    pub fn new(width: u32, height: u32) -> (s: State)
        ensures
            s == (State { width, height, current_pipeline: 1u8 }),
            s.wf(),
    {
        State { width, height, current_pipeline: 1 }
    }

    /// Record a requested surface size.  Requests with a zero dimension and
    /// requests equal to the current size are ignored.  Returns whether the
    /// surface must be reconfigured.
    pub fn resize(&mut self, new_width: u32, new_height: u32) -> (reconfigure: bool)
        ensures
            reconfigure == old(self).accepts_resize(new_width, new_height),
            reconfigure ==> *final(self) == (State {
                width: new_width,
                height: new_height,
                ..*old(self)
            }),
            !reconfigure ==> *final(self) == *old(self),
    {
        if new_width > 0 && new_height > 0 && (new_width != self.width || new_height
            != self.height) {
            self.width = new_width;
            self.height = new_height;
            true
        } else {
            false
        }
    }

    /// Switch to the other pipeline; the surface size is untouched.
    pub fn toggle_pipeline(&mut self)
        ensures
            *final(self) == (State {
                current_pipeline: toggled_pipeline(old(self).current_pipeline),
                ..*old(self)
            }),
            final(self).wf(),
    {
        if self.current_pipeline == 1 {
            self.current_pipeline = 2;
        } else {
            self.current_pipeline = 1;
        }
    }

    /// The pipeline the next frame is drawn with.
    pub fn pipeline_choice(&self) -> (c: PipelineChoice)
        ensures
            c == chosen_pipeline(self.current_pipeline),
    {
        if self.current_pipeline == 2 {
            PipelineChoice::Second
        } else {
            PipelineChoice::First
        }
    }
}

} // verus!
