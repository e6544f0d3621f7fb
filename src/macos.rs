//! macOS: one progress bar on the application's dock tile, shared by every
//! indicator of the process.
use vstd::prelude::*;

use crate::progress::{clamp_progress, clamp_spec, PROGRESS_ONE};
use crate::state::ProgressIndicatorState;

verus! {

/// A step of installing the bar on the dock tile.
#[derive(Clone, Copy, Debug, PartialEq, Eq, Structural)]
pub enum DockSetupStep {
    /// Create the bar at the tile's origin, as wide as the tile, and apply
    /// `bar_config()`.
    ConfigureBar,
    /// Add the bar to the tile's existing content view.
    AddToContentView,
    /// Create an image view for the tile.
    CreateIconView,
    /// Put the application icon into that image view.
    SetIconImage,
    /// Add the bar to that image view.
    AddToIconView,
    /// Make that image view the tile's content view.
    InstallIconView,
}

/// How the dock bar is drawn when it is created.
#[derive(Clone, Copy, Debug, PartialEq, Eq, Structural)]
pub struct BarConfig {
    /// A horizontal bar rather than a spinner.
    pub bar_style: bool,
    pub bezeled: bool,
    pub hidden: bool,
    pub indeterminate: bool,
    pub threaded_animation: bool,
    pub displayed_when_stopped: bool,
    pub min_value: u64,
    pub max_value: u64,
    /// Height in points; the width is the dock tile's.
    pub height: u64,
}

/// The bar's initial drawing: a bezeled horizontal bar, shown and
/// indeterminate, animated on its own thread, drawn while stopped, on a
/// 0 to 100 scale, 10 points high.
pub open spec fn bar_config_spec() -> BarConfig {
    BarConfig {
        bar_style: true,
        bezeled: true,
        hidden: false,
        indeterminate: true,
        threaded_animation: true,
        displayed_when_stopped: true,
        min_value: 0,
        max_value: 100,
        height: 10,
    }
}

/// The configuration applied by the `ConfigureBar` step.
pub fn bar_config() -> (r: BarConfig)
    ensures
        r == bar_config_spec(),
{
    BarConfig {
        bar_style: true,
        bezeled: true,
        hidden: false,
        indeterminate: true,
        threaded_animation: true,
        displayed_when_stopped: true,
        min_value: 0,
        max_value: 100,
        height: 10,
    }
}

pub open spec fn setup_plan(has_content_view: bool, has_app_icon: bool) -> Seq<DockSetupStep> {
    if has_content_view {
        seq![DockSetupStep::ConfigureBar, DockSetupStep::AddToContentView]
    } else if has_app_icon {
        seq![
            DockSetupStep::ConfigureBar,
            DockSetupStep::CreateIconView,
            DockSetupStep::SetIconImage,
            DockSetupStep::AddToIconView,
            DockSetupStep::InstallIconView,
        ]
    } else {
        seq![
            DockSetupStep::ConfigureBar,
            DockSetupStep::CreateIconView,
            DockSetupStep::AddToIconView,
            DockSetupStep::InstallIconView,
        ]
    }
}

/// How the bar is installed: over the tile's content view where it has one,
/// else in a new image view showing the application icon (if any), which
/// becomes the content view.
pub fn dock_tile_setup(has_content_view: bool, has_app_icon: bool) -> (r: Vec<DockSetupStep>)
    ensures
        r@ == setup_plan(has_content_view, has_app_icon),
{
    let mut steps: Vec<DockSetupStep> = Vec::new();
    steps.push(DockSetupStep::ConfigureBar);
    if has_content_view {
        steps.push(DockSetupStep::AddToContentView);
    } else {
        steps.push(DockSetupStep::CreateIconView);
        if has_app_icon {
            steps.push(DockSetupStep::SetIconImage);
        }
        steps.push(DockSetupStep::AddToIconView);
        steps.push(DockSetupStep::InstallIconView);
    }
    assert(steps@ =~= setup_plan(has_content_view, has_app_icon));
    steps
}

/// A native request on the dock tile's bar or on the application.
#[derive(Clone, Copy, Debug, PartialEq, Eq, Structural)]
pub enum DockCall {
    SetHidden(bool),
    SetIndeterminate(bool),
    StartAnimation,
    StopAnimation,
    /// Set the value, in parts of `PROGRESS_ONE`; the bar shows it on its
    /// 0 to 100 scale.
    SetValue(u64),
    /// Redraw the dock tile.
    Display,
    /// Bounce the dock icon once, as an informational request.
    RequestAttention,
}

/// The abstract state of the dock bar.
pub struct DockView {
    pub hidden: bool,
    pub indeterminate: bool,
    pub animating: bool,
    /// In parts of `PROGRESS_ONE`.
    pub value: u64,
}

/// `Normal`, `Paused` and `Error` look the same on the dock.
pub open spec fn state_plan(state: ProgressIndicatorState) -> Seq<DockCall> {
    match state {
        ProgressIndicatorState::NoProgress => seq![
            DockCall::SetHidden(true),
            DockCall::StopAnimation,
            DockCall::Display,
        ],
        ProgressIndicatorState::Indeterminate => seq![
            DockCall::SetHidden(false),
            DockCall::SetIndeterminate(true),
            DockCall::StartAnimation,
            DockCall::Display,
        ],
        _ => seq![
            DockCall::SetHidden(false),
            DockCall::SetIndeterminate(false),
            DockCall::StopAnimation,
            DockCall::Display,
        ],
    }
}

pub open spec fn after_state(v: DockView, state: ProgressIndicatorState) -> DockView {
    match state {
        ProgressIndicatorState::NoProgress => DockView { hidden: true, animating: false, ..v },
        ProgressIndicatorState::Indeterminate => DockView {
            hidden: false,
            indeterminate: true,
            animating: true,
            ..v
        },
        _ => DockView { hidden: false, indeterminate: false, animating: false, ..v },
    }
}

/// Setting a value first applies `Normal`, then sends the clamped value.
pub open spec fn progress_plan(raw: int) -> Seq<DockCall> {
    state_plan(ProgressIndicatorState::Normal) + seq![
        DockCall::SetValue(clamp_spec(raw) as u64),
        DockCall::SetIndeterminate(false),
        DockCall::Display,
    ]
}

pub open spec fn after_progress(v: DockView, raw: int) -> DockView {
    DockView { value: clamp_spec(raw) as u64, ..after_state(v, ProgressIndicatorState::Normal) }
}

/// The dock's attention request cannot be cancelled: withdrawing it sends nothing.
pub open spec fn attention_plan(needs_attention: bool) -> Seq<DockCall> {
    if needs_attention {
        seq![DockCall::RequestAttention]
    } else {
        Seq::empty()
    }
}

/// Applying a state twice: the second application sends exactly the requests
/// of the first and leaves the bar as the first left it.
pub proof fn lemma_state_idempotent(v: DockView, state: ProgressIndicatorState)
    ensures
        after_state(after_state(v, state), state) == after_state(v, state),
{
}

/// The macOS indicator: the state of the process's one dock bar. Each
/// operation records the new state and returns the native requests to
/// perform, in order.
pub struct TaskbarIndicator {
    hidden: bool,
    indeterminate: bool,
    animating: bool,
    value: u64,
}

impl View for TaskbarIndicator {
    type V = DockView;

    closed spec fn view(&self) -> DockView {
        DockView {
            hidden: self.hidden,
            indeterminate: self.indeterminate,
            animating: self.animating,
            value: self.value,
        }
    }
}

impl TaskbarIndicator {
    /// The stored value is always within range.
    #[verifier::type_invariant]
    spec fn well_formed(self) -> bool {
        self.value <= PROGRESS_ONE
    }

    /// The bar as installed by `dock_tile_setup`: shown, indeterminate, not
    /// animating, value zero.
    pub fn new() -> (r: Self)
        ensures
            r@.hidden == bar_config_spec().hidden,
            r@.indeterminate == bar_config_spec().indeterminate,
            !r@.hidden,
            r@.indeterminate,
            !r@.animating,
            r@.value == 0,
    {
        TaskbarIndicator { hidden: false, indeterminate: true, animating: false, value: 0 }
    }

    /// Applies `Normal`, then stores and sends the clamped value.
    pub fn set_progress(&mut self, progress: i64) -> (r: Vec<DockCall>)
        ensures
            final(self)@ == after_progress(old(self)@, progress as int),
            final(self)@.value as int == clamp_spec(progress as int),
            !final(self)@.hidden && !final(self)@.indeterminate,
            r@ == progress_plan(progress as int),
    {
        proof {
            use_type_invariant(&*self);
        }
        let mut calls = self.set_progress_state(ProgressIndicatorState::Normal);
        let p = clamp_progress(progress);
        self.value = p;
        self.indeterminate = false;
        calls.push(DockCall::SetValue(p));
        calls.push(DockCall::SetIndeterminate(false));
        calls.push(DockCall::Display);
        assert(calls@ =~= progress_plan(progress as int));
        calls
    }

    /// Shows, hides or animates the bar as the state asks, then redraws.
    pub fn set_progress_state(&mut self, state: ProgressIndicatorState) -> (r: Vec<DockCall>)
        ensures
            final(self)@ == after_state(old(self)@, state),
            r@ == state_plan(state),
    {
        proof {
            use_type_invariant(&*self);
        }
        let mut calls: Vec<DockCall> = Vec::new();
        match state {
            ProgressIndicatorState::NoProgress => {
                self.hidden = true;
                self.animating = false;
                calls.push(DockCall::SetHidden(true));
                calls.push(DockCall::StopAnimation);
            },
            ProgressIndicatorState::Indeterminate => {
                self.hidden = false;
                self.indeterminate = true;
                self.animating = true;
                calls.push(DockCall::SetHidden(false));
                calls.push(DockCall::SetIndeterminate(true));
                calls.push(DockCall::StartAnimation);
            },
            _ => {
                self.hidden = false;
                self.indeterminate = false;
                self.animating = false;
                calls.push(DockCall::SetHidden(false));
                calls.push(DockCall::SetIndeterminate(false));
                calls.push(DockCall::StopAnimation);
            },
        }
        calls.push(DockCall::Display);
        assert(calls@ =~= state_plan(state));
        calls
    }

    /// Bounces the dock icon once for `true`; `false` sends nothing and
    /// always succeeds, since the request cannot be cancelled.
    pub fn needs_attention(&mut self, needs_attention: bool) -> (r: Vec<DockCall>)
        ensures
            final(self)@ == old(self)@,
            r@ == attention_plan(needs_attention),
            !needs_attention ==> r@.len() == 0,
    {
        proof {
            use_type_invariant(&*self);
        }
        let mut calls: Vec<DockCall> = Vec::new();
        if needs_attention {
            calls.push(DockCall::RequestAttention);
        }
        assert(calls@ =~= attention_plan(needs_attention));
        calls
    }

    /// Whether the bar is hidden.
    pub fn hidden(&self) -> (r: bool)
        ensures
            r == self@.hidden,
    {
        self.hidden
    }

    /// Whether the bar is indeterminate.
    pub fn indeterminate(&self) -> (r: bool)
        ensures
            r == self@.indeterminate,
    {
        self.indeterminate
    }

    /// Whether the bar animates.
    pub fn animating(&self) -> (r: bool)
        ensures
            r == self@.animating,
    {
        self.animating
    }

    /// The stored value, in parts of `PROGRESS_ONE`.
    pub fn value(&self) -> (r: u64)
        ensures
            r == self@.value,
            r <= PROGRESS_ONE,
    {
        proof {
            use_type_invariant(self);
        }
        self.value
    }
}

} // verus!
