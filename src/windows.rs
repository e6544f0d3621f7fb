//! Windows: one taskbar button per window, driven through the taskbar list
//! service, with the value on a `0..=TASKBAR_MAX` integer scale.
use vstd::prelude::*;

use crate::progress::{clamp_progress, clamp_spec, quantize, quantum_spec, TASKBAR_MAX};
use crate::state::{shows_value, ProgressIndicatorState};

verus! {

/// A native request on the window's taskbar button.
#[derive(Clone, Copy, Debug, PartialEq, Eq, Structural)]
pub enum WindowsCall {
    /// Set the button's progress state flag.
    SetProgressState(ProgressIndicatorState),
    /// Set the value, out of `TASKBAR_MAX`.
    SetProgressValue(u64),
    /// Flash the button until the window comes to the foreground.
    FlashTray,
    /// Stop any flashing.
    FlashStop,
}

/// The abstract state of a Windows indicator.
pub struct WindowsView {
    pub state: ProgressIndicatorState,
    /// The last applied value, out of `TASKBAR_MAX`.
    pub progress: u64,
}

/// Setting a state sends its flag, then, where the state shows a value,
/// pushes the stored value again so that the bar redraws.
pub open spec fn state_plan(v: WindowsView, state: ProgressIndicatorState) -> Seq<WindowsCall> {
    if shows_value(state) {
        seq![WindowsCall::SetProgressState(state), WindowsCall::SetProgressValue(v.progress)]
    } else {
        seq![WindowsCall::SetProgressState(state)]
    }
}

pub open spec fn after_state(v: WindowsView, state: ProgressIndicatorState) -> WindowsView {
    WindowsView { state, ..v }
}

/// The taskbar value of a requested progress.
pub open spec fn quantum_of(raw: int) -> u64 {
    quantum_spec(clamp_spec(raw)) as u64
}

/// Setting a value: outside `Normal`, switch to `Normal`, which pushes the
/// new value; in `Normal`, push the value only if it differs from the last.
pub open spec fn progress_plan(v: WindowsView, raw: int) -> Seq<WindowsCall> {
    let q = quantum_of(raw);
    if v.state != ProgressIndicatorState::Normal {
        state_plan(WindowsView { progress: q, ..v }, ProgressIndicatorState::Normal)
    } else if q != v.progress {
        seq![WindowsCall::SetProgressValue(q)]
    } else {
        Seq::empty()
    }
}

pub open spec fn after_progress(v: WindowsView, raw: int) -> WindowsView {
    WindowsView { state: ProgressIndicatorState::Normal, progress: quantum_of(raw) }
}

pub open spec fn attention_plan(needs_attention: bool) -> Seq<WindowsCall> {
    if needs_attention {
        seq![WindowsCall::FlashTray]
    } else {
        seq![WindowsCall::FlashStop]
    }
}

/// Applying a state twice: the second application sends exactly the requests
/// of the first and leaves the state as the first left it. States without a
/// value send their flag alone.
pub proof fn lemma_state_idempotent(v: WindowsView, state: ProgressIndicatorState)
    ensures
        state_plan(after_state(v, state), state) == state_plan(v, state),
        after_state(after_state(v, state), state) == after_state(v, state),
        !shows_value(state) ==> state_plan(v, state) == seq![WindowsCall::SetProgressState(state)],
{
}

/// Two requested values in the same taskbar quantum: the second sends
/// nothing and changes nothing.
pub proof fn lemma_same_quantum_no_update(v: WindowsView, a: int, b: int)
    requires
        quantum_spec(clamp_spec(a)) == quantum_spec(clamp_spec(b)),
    ensures
        progress_plan(after_progress(v, a), b).len() == 0,
        after_progress(after_progress(v, a), b) == after_progress(v, a),
{
}

/// The Windows indicator. Each operation records the new state and returns
/// the native requests to perform, in order; the host stops at the first
/// request that fails.
pub struct TaskbarIndicator {
    state: ProgressIndicatorState,
    progress: u64,
}

impl View for TaskbarIndicator {
    type V = WindowsView;

    closed spec fn view(&self) -> WindowsView {
        WindowsView { state: self.state, progress: self.progress }
    }
}

impl TaskbarIndicator {
    /// The stored value is always on the taskbar's scale.
    #[verifier::type_invariant]
    spec fn well_formed(self) -> bool {
        self.progress <= TASKBAR_MAX
    }

    /// A new indicator: nothing shown, value zero, nothing sent yet.
    pub fn new() -> (r: Self)
        ensures
            r@.state == ProgressIndicatorState::NoProgress,
            r@.progress == 0,
    {
        TaskbarIndicator { state: ProgressIndicatorState::NoProgress, progress: 0 }
    }

    /// Switches to `Normal` where needed, then applies the clamped value,
    /// skipping a push that would not change the taskbar value.
    pub fn set_progress(&mut self, progress: i64) -> (r: Vec<WindowsCall>)
        ensures
            final(self)@ == after_progress(old(self)@, progress as int),
            final(self)@.state == ProgressIndicatorState::Normal,
            final(self)@.progress <= TASKBAR_MAX,
            r@ == progress_plan(old(self)@, progress as int),
    {
        proof {
            use_type_invariant(&*self);
        }
        let q = quantize(clamp_progress(progress));
        if self.state != ProgressIndicatorState::Normal {
            self.progress = q;
            self.set_progress_state(ProgressIndicatorState::Normal)
        } else if q != self.progress {
            self.progress = q;
            let mut calls: Vec<WindowsCall> = Vec::new();
            calls.push(WindowsCall::SetProgressValue(q));
            assert(calls@ =~= progress_plan(old(self)@, progress as int));
            calls
        } else {
            let calls: Vec<WindowsCall> = Vec::new();
            assert(calls@ =~= progress_plan(old(self)@, progress as int));
            calls
        }
    }

    /// Sends the state's flag, then the stored value where the state shows one.
    pub fn set_progress_state(&mut self, state: ProgressIndicatorState) -> (r: Vec<WindowsCall>)
        ensures
            final(self)@ == after_state(old(self)@, state),
            r@ == state_plan(old(self)@, state),
    {
        proof {
            use_type_invariant(&*self);
        }
        self.state = state;
        let mut calls: Vec<WindowsCall> = Vec::new();
        calls.push(WindowsCall::SetProgressState(state));
        if state.shows_value() {
            calls.push(WindowsCall::SetProgressValue(self.progress));
        }
        assert(calls@ =~= state_plan(old(self)@, state));
        calls
    }

    /// Starts flashing the taskbar button, or stops it. Nothing is recorded.
    pub fn needs_attention(&mut self, needs_attention: bool) -> (r: Vec<WindowsCall>)
        ensures
            final(self)@ == old(self)@,
            r@ == attention_plan(needs_attention),
    {
        proof {
            use_type_invariant(&*self);
        }
        let mut calls: Vec<WindowsCall> = Vec::new();
        if needs_attention {
            calls.push(WindowsCall::FlashTray);
        } else {
            calls.push(WindowsCall::FlashStop);
        }
        assert(calls@ =~= attention_plan(needs_attention));
        calls
    }

    /// The current state.
    pub fn state(&self) -> (r: ProgressIndicatorState)
        ensures
            r == self@.state,
    {
        self.state
    }

    /// The last applied value, out of `TASKBAR_MAX`.
    pub fn progress(&self) -> (r: u64)
        ensures
            r == self@.progress,
            r <= TASKBAR_MAX,
    {
        proof {
            use_type_invariant(self);
        }
        self.progress
    }
}

} // verus!
