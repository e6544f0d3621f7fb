use vstd::prelude::*;

verus! {

/// What the indicator shows.
#[derive(Clone, Copy, Debug, PartialEq, Eq, Structural)]
pub enum ProgressIndicatorState {
    /// Hidden / cleared.
    NoProgress,
    /// Visible and animating, without a value.
    Indeterminate,
    /// Visible, showing the stored value.
    Normal,
    /// Visible, showing the stored value with a "paused" look.
    Paused,
    /// Visible, showing the stored value with an "error" look.
    Error,
}

/// Whether the state shows a determinate numeric value.
pub open spec fn shows_value(state: ProgressIndicatorState) -> bool {
    !(state is NoProgress || state is Indeterminate)
}

impl ProgressIndicatorState {
    /// True for `Normal`, `Paused` and `Error`: the states in which the
    /// numeric value is on display.
    pub fn shows_value(&self) -> (r: bool)
        ensures
            r == shows_value(*self),
    {
        match self {
            ProgressIndicatorState::NoProgress => false,
            ProgressIndicatorState::Indeterminate => false,
            _ => true,
        }
    }
}

} // verus!
