//! Linux: a desktop status-service sub-backend ("xapps"), bound at
//! construction when the desktop offers it, and an opt-in launcher
//! sub-backend ("unity") attached later by application URI.
use vstd::prelude::*;

use crate::progress::{clamp_progress, clamp_spec, PROGRESS_ONE};
use crate::state::{shows_value, ProgressIndicatorState};

verus! {

/// One of the two Linux sub-backends.
#[derive(Clone, Copy, Debug, PartialEq, Eq, Structural)]
pub enum SubBackend {
    XApps,
    Unity,
}

/// A native request understood by both sub-backends.
#[derive(Clone, Copy, Debug, PartialEq, Eq, Structural)]
pub enum LinuxCommand {
    /// Show this value, in parts of `PROGRESS_ONE`.
    SetProgress(u64),
    SetProgressVisible(bool),
    NeedsAttention(bool),
}

/// A native request addressed to one sub-backend.
#[derive(Clone, Copy, Debug, PartialEq, Eq, Structural)]
pub struct LinuxCall {
    pub target: SubBackend,
    pub command: LinuxCommand,
}

/// The abstract state of a Linux indicator.
pub struct LinuxView {
    pub has_xapps: bool,
    pub unity_uri: Option<Seq<char>>,
    pub progress: u64,
    pub progress_visible: bool,
    pub needs_attention: bool,
}

/// The request `command` sent to every present sub-backend, status service first.
pub open spec fn fan_out(v: LinuxView, command: LinuxCommand) -> Seq<LinuxCall> {
    (if v.has_xapps {
        seq![LinuxCall { target: SubBackend::XApps, command }]
    } else {
        Seq::empty()
    }) + (if v.unity_uri is Some {
        seq![LinuxCall { target: SubBackend::Unity, command }]
    } else {
        Seq::empty()
    })
}

pub open spec fn state_plan(v: LinuxView, state: ProgressIndicatorState) -> Seq<LinuxCall> {
    fan_out(v, LinuxCommand::SetProgressVisible(shows_value(state)))
}

pub open spec fn after_state(v: LinuxView, state: ProgressIndicatorState) -> LinuxView {
    LinuxView { progress_visible: shows_value(state), ..v }
}

/// Setting a value first makes the state `Normal`, then sends the clamped value.
pub open spec fn progress_plan(v: LinuxView, raw: int) -> Seq<LinuxCall> {
    state_plan(v, ProgressIndicatorState::Normal) + fan_out(
        v,
        LinuxCommand::SetProgress(clamp_spec(raw) as u64),
    )
}

pub open spec fn after_progress(v: LinuxView, raw: int) -> LinuxView {
    LinuxView {
        progress: clamp_spec(raw) as u64,
        ..after_state(v, ProgressIndicatorState::Normal)
    }
}

pub open spec fn attention_plan(v: LinuxView, needs_attention: bool) -> Seq<LinuxCall> {
    fan_out(v, LinuxCommand::NeedsAttention(needs_attention))
}

pub open spec fn after_attention(v: LinuxView, needs_attention: bool) -> LinuxView {
    LinuxView { needs_attention, ..v }
}

/// What a freshly attached launcher receives: the current value, visibility
/// and attention request, in that order.
pub open spec fn replay_plan(v: LinuxView) -> Seq<LinuxCall> {
    seq![
        LinuxCall { target: SubBackend::Unity, command: LinuxCommand::SetProgress(v.progress) },
        LinuxCall {
            target: SubBackend::Unity,
            command: LinuxCommand::SetProgressVisible(v.progress_visible),
        },
        LinuxCall {
            target: SubBackend::Unity,
            command: LinuxCommand::NeedsAttention(v.needs_attention),
        },
    ]
}

pub open spec fn after_attach(v: LinuxView, uri: Seq<char>) -> LinuxView {
    LinuxView { unity_uri: Some(uri), ..v }
}

/// Applying a state twice: the second application sends exactly the requests
/// of the first and leaves the state as the first left it.
pub proof fn lemma_state_idempotent(v: LinuxView, state: ProgressIndicatorState)
    ensures
        state_plan(after_state(v, state), state) == state_plan(v, state),
        after_state(after_state(v, state), state) == after_state(v, state),
{
}

/// After `set_progress(p)`, `set_progress_state(Paused)` and
/// `needs_attention(true)`, a launcher attached next is brought to exactly
/// that value, shown, with attention requested.
pub proof fn lemma_replay_exact(v: LinuxView, raw: int, uri: Seq<char>)
    ensures
        ({
            let w = after_attention(
                after_state(after_progress(v, raw), ProgressIndicatorState::Paused),
                true,
            );
            &&& replay_plan(w) == seq![
                LinuxCall {
                    target: SubBackend::Unity,
                    command: LinuxCommand::SetProgress(clamp_spec(raw) as u64),
                },
                LinuxCall {
                    target: SubBackend::Unity,
                    command: LinuxCommand::SetProgressVisible(true),
                },
                LinuxCall { target: SubBackend::Unity, command: LinuxCommand::NeedsAttention(true) },
            ]
            &&& after_attach(w, uri).progress as int == clamp_spec(raw)
            &&& after_attach(w, uri).progress_visible
            &&& after_attach(w, uri).needs_attention
        }),
{
}

/// With no sub-backend present, every operation sends nothing and leaves
/// none present, so all later operations send nothing too.
pub proof fn lemma_no_backends_no_calls(
    v: LinuxView,
    raw: int,
    state: ProgressIndicatorState,
    needs_attention: bool,
)
    requires
        !v.has_xapps,
        v.unity_uri is None,
    ensures
        progress_plan(v, raw).len() == 0,
        state_plan(v, state).len() == 0,
        attention_plan(v, needs_attention).len() == 0,
        !after_progress(v, raw).has_xapps && after_progress(v, raw).unity_uri is None,
        !after_state(v, state).has_xapps && after_state(v, state).unity_uri is None,
        !after_attention(v, needs_attention).has_xapps
            && after_attention(v, needs_attention).unity_uri is None,
{
}

/// The Linux indicator. Each operation records the new state and returns
/// the native requests to perform, in order; the host stops at the first
/// request that fails.
pub struct TaskbarIndicator {
    has_xapps: bool,
    unity_uri: Option<String>,
    progress: u64,
    progress_visible: bool,
    needs_attention: bool,
}

impl View for TaskbarIndicator {
    type V = LinuxView;

    closed spec fn view(&self) -> LinuxView {
        LinuxView {
            has_xapps: self.has_xapps,
            unity_uri: match self.unity_uri {
                Some(s) => Some(s@),
                None => None,
            },
            progress: self.progress,
            progress_visible: self.progress_visible,
            needs_attention: self.needs_attention,
        }
    }
}

impl TaskbarIndicator {
    /// The stored value is always within range.
    #[verifier::type_invariant]
    spec fn well_formed(self) -> bool {
        self.progress <= PROGRESS_ONE
    }

    /// A new indicator; `has_xapps` tells whether the desktop's status
    /// service could be bound. Succeeds with or without it.
    pub fn new(has_xapps: bool) -> (r: Self)
        ensures
            r@.has_xapps == has_xapps,
            r@.unity_uri is None,
            r@.progress == 0,
            !r@.progress_visible,
            !r@.needs_attention,
    {
        TaskbarIndicator {
            has_xapps,
            unity_uri: None,
            progress: 0,
            progress_visible: false,
            needs_attention: false,
        }
    }

    fn fan_out(&self, command: LinuxCommand, calls: &mut Vec<LinuxCall>)
        ensures
            final(calls)@ == old(calls)@ + fan_out(self@, command),
    {
        let ghost start = calls@;
        if self.has_xapps {
            calls.push(LinuxCall { target: SubBackend::XApps, command });
        }
        if self.unity_uri.is_some() {
            calls.push(LinuxCall { target: SubBackend::Unity, command });
        }
        assert(calls@ =~= start + fan_out(self@, command));
    }

    /// Attaches the launcher sub-backend bound to `uri` and returns the
    /// requests that bring it to the indicator's current state. The host
    /// performs them after binding the launcher and ignores their failures.
    pub fn set_unity_app_uri(&mut self, uri: String) -> (r: Vec<LinuxCall>)
        ensures
            final(self)@ == after_attach(old(self)@, uri@),
            r@ == replay_plan(old(self)@),
    {
        proof {
            use_type_invariant(&*self);
        }
        let mut calls: Vec<LinuxCall> = Vec::new();
        calls.push(
            LinuxCall { target: SubBackend::Unity, command: LinuxCommand::SetProgress(self.progress) },
        );
        calls.push(
            LinuxCall {
                target: SubBackend::Unity,
                command: LinuxCommand::SetProgressVisible(self.progress_visible),
            },
        );
        calls.push(
            LinuxCall {
                target: SubBackend::Unity,
                command: LinuxCommand::NeedsAttention(self.needs_attention),
            },
        );
        self.unity_uri = Some(uri);
        assert(calls@ =~= replay_plan(old(self)@));
        calls
    }

    /// Builder form of `set_unity_app_uri`.
    pub fn unity_app_uri(self, uri: String) -> (r: (Self, Vec<LinuxCall>))
        ensures
            r.0@ == after_attach(self@, uri@),
            r.1@ == replay_plan(self@),
    {
        let mut ind = self;
        let calls = ind.set_unity_app_uri(uri);
        (ind, calls)
    }

    /// Makes the value visible (state `Normal`), then stores and sends the
    /// clamped value.
    pub fn set_progress(&mut self, progress: i64) -> (r: Vec<LinuxCall>)
        ensures
            final(self)@ == after_progress(old(self)@, progress as int),
            final(self)@.progress as int == clamp_spec(progress as int),
            final(self)@.progress_visible,
            r@ == progress_plan(old(self)@, progress as int),
    {
        proof {
            use_type_invariant(&*self);
        }
        let mut calls = self.set_progress_state(ProgressIndicatorState::Normal);
        let p = clamp_progress(progress);
        self.progress = p;
        self.fan_out(LinuxCommand::SetProgress(p), &mut calls);
        calls
    }

    /// Shows the value only in `Normal`, `Paused` and `Error`.
    pub fn set_progress_state(&mut self, state: ProgressIndicatorState) -> (r: Vec<LinuxCall>)
        ensures
            final(self)@ == after_state(old(self)@, state),
            r@ == state_plan(old(self)@, state),
    {
        proof {
            use_type_invariant(&*self);
        }
        let visible = state.shows_value();
        self.progress_visible = visible;
        let mut calls: Vec<LinuxCall> = Vec::new();
        self.fan_out(LinuxCommand::SetProgressVisible(visible), &mut calls);
        assert(calls@ =~= state_plan(old(self)@, state));
        calls
    }

    /// Records and forwards the attention request.
    pub fn needs_attention(&mut self, needs_attention: bool) -> (r: Vec<LinuxCall>)
        ensures
            final(self)@ == after_attention(old(self)@, needs_attention),
            r@ == attention_plan(old(self)@, needs_attention),
    {
        proof {
            use_type_invariant(&*self);
        }
        self.needs_attention = needs_attention;
        let mut calls: Vec<LinuxCall> = Vec::new();
        self.fan_out(LinuxCommand::NeedsAttention(needs_attention), &mut calls);
        assert(calls@ =~= attention_plan(old(self)@, needs_attention));
        calls
    }

    /// The stored value, in parts of `PROGRESS_ONE`.
    pub fn progress(&self) -> (r: u64)
        ensures
            r == self@.progress,
            r <= PROGRESS_ONE,
    {
        proof {
            use_type_invariant(self);
        }
        self.progress
    }

    /// Whether the numeric value is shown.
    pub fn progress_visible(&self) -> (r: bool)
        ensures
            r == self@.progress_visible,
    {
        self.progress_visible
    }

    /// Whether attention is currently requested.
    pub fn attention_requested(&self) -> (r: bool)
        ensures
            r == self@.needs_attention,
    {
        self.needs_attention
    }

    /// Whether the status-service sub-backend is present.
    pub fn has_xapps(&self) -> (r: bool)
        ensures
            r == self@.has_xapps,
    {
        self.has_xapps
    }

    /// The launcher URI, once a launcher is attached.
    pub fn unity_uri(&self) -> (r: Option<&String>)
        ensures
            r is None <==> self@.unity_uri is None,
            r matches Some(s) ==> self@.unity_uri == Some(s@),
    {
        self.unity_uri.as_ref()
    }
}

} // verus!
