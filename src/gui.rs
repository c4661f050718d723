use vstd::prelude::*;

verus! {

/// Smallest value of the scale control.
pub const SCALE_MIN: u32 = 1;

/// Largest value of the scale control.
pub const SCALE_MAX: u32 = 20;

/// Value of the scale control before the user touches it.
pub const SCALE_DEFAULT: u32 = 10;

/// The scale control's value for a requested value: the nearest one in range.
pub open spec fn clamp_scale(value: u32) -> u32 {
    if value < SCALE_MIN {
        SCALE_MIN
    } else if value > SCALE_MAX {
        SCALE_MAX
    } else {
        value
    }
}

/// Retained values of the overlay's widgets.
#[derive(Clone, Copy, Debug, PartialEq, Eq, Structural)]
pub struct GUI {
    /// The numeric scale control.
    pub scale: u32,
    /// Whether the console window is shown.
    pub window_open: bool,
}

/// One change the overlay's callback makes to the retained values.
#[derive(Clone, Copy, Debug, PartialEq, Eq, Structural)]
pub enum UiInput {
    /// The scale control was dragged or typed to a value.
    Scale(u32),
    /// The console window was opened or closed.
    WindowOpen(bool),
}

/// The retained values after one change.
pub open spec fn ui_step(g: GUI, input: UiInput) -> GUI {
    match input {
        UiInput::Scale(v) => GUI { scale: clamp_scale(v), ..g },
        UiInput::WindowOpen(open) => GUI { window_open: open, ..g },
    }
}

/// The retained values after a sequence of changes, in order.
pub open spec fn ui_run(g: GUI, inputs: Seq<UiInput>) -> GUI
    decreases inputs.len(),
{
    if inputs.len() == 0 {
        g
    } else {
        ui_step(ui_run(g, inputs.drop_last()), inputs.last())
    }
}

impl GUI {
    /// The scale lies in its range.
    pub open spec fn wf(self) -> bool {
        SCALE_MIN <= self.scale <= SCALE_MAX
    }

    pub fn new() -> (r: GUI)
        ensures
            r.wf(),
            r.scale == SCALE_DEFAULT,
            !r.window_open,
    {
        GUI { scale: SCALE_DEFAULT, window_open: false }
    }

    /// Takes the value the scale control reports, held to the control's range.
    pub fn set_scale(&mut self, value: u32)
        ensures
            final(self).wf(),
            *final(self) == ui_step(*old(self), UiInput::Scale(value)),
            SCALE_MIN <= value <= SCALE_MAX ==> final(self).scale == value,
    {
        self.scale = if value < SCALE_MIN {
            SCALE_MIN
        } else if value > SCALE_MAX {
            SCALE_MAX
        } else {
            value
        };
    }

    pub fn set_window_open(&mut self, open: bool)
        ensures
            *final(self) == ui_step(*old(self), UiInput::WindowOpen(open)),
    {
        self.window_open = open;
    }

    /// Applies one change made by the overlay's callback.
    pub fn apply(&mut self, input: UiInput)
        requires
            old(self).wf(),
        ensures
            final(self).wf(),
            *final(self) == ui_step(*old(self), input),
    {
        match input {
            UiInput::Scale(v) => self.set_scale(v),
            UiInput::WindowOpen(open) => self.set_window_open(open),
        }
    }
}

/// Whatever changes the overlay makes, in whatever order, the scale stays in
/// its range.
pub proof fn lemma_scale_stays_in_range(g: GUI, inputs: Seq<UiInput>)
    requires
        g.wf(),
    ensures
        ui_run(g, inputs).wf(),
    decreases inputs.len(),
{
    if inputs.len() > 0 {
        lemma_scale_stays_in_range(g, inputs.drop_last());
    }
}

} // verus!
