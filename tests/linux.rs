use taskbar_progress::linux::{LinuxCall, LinuxCommand, SubBackend, TaskbarIndicator};
use taskbar_progress::progress::PROGRESS_ONE;
use taskbar_progress::state::ProgressIndicatorState;

fn call(target: SubBackend, command: LinuxCommand) -> LinuxCall {
    LinuxCall { target, command }
}

#[test]
fn linux_new_starts_cleared() {
    let ind = TaskbarIndicator::new(true);
    assert!(ind.has_xapps());
    assert!(ind.unity_uri().is_none());
    assert_eq!(ind.progress(), 0);
    assert!(!ind.progress_visible());
    assert!(!ind.attention_requested());
}

#[test]
fn linux_set_progress_clamps() {
    let mut ind = TaskbarIndicator::new(true);
    ind.set_progress(-500_000_000);
    assert_eq!(ind.progress(), 0);
    ind.set_progress(1_700_000_000);
    assert_eq!(ind.progress(), PROGRESS_ONE);
}

#[test]
fn linux_set_progress_makes_value_visible() {
    let mut ind = TaskbarIndicator::new(true);
    ind.set_progress_state(ProgressIndicatorState::NoProgress);
    assert!(!ind.progress_visible());
    let calls = ind.set_progress(420_000_000);
    assert!(ind.progress_visible());
    assert_eq!(ind.progress(), 420_000_000);
    assert_eq!(
        calls,
        vec![
            call(SubBackend::XApps, LinuxCommand::SetProgressVisible(true)),
            call(SubBackend::XApps, LinuxCommand::SetProgress(420_000_000)),
        ]
    );
}

#[test]
fn linux_fan_out_order_with_both_backends() {
    let (mut ind, _) = TaskbarIndicator::new(true).unity_app_uri("application://app.desktop".to_string());
    let calls = ind.set_progress(250_000_000);
    assert_eq!(
        calls,
        vec![
            call(SubBackend::XApps, LinuxCommand::SetProgressVisible(true)),
            call(SubBackend::Unity, LinuxCommand::SetProgressVisible(true)),
            call(SubBackend::XApps, LinuxCommand::SetProgress(250_000_000)),
            call(SubBackend::Unity, LinuxCommand::SetProgress(250_000_000)),
        ]
    );
}

#[test]
fn linux_state_visibility_mapping() {
    let mut ind = TaskbarIndicator::new(true);
    for (state, visible) in [
        (ProgressIndicatorState::NoProgress, false),
        (ProgressIndicatorState::Indeterminate, false),
        (ProgressIndicatorState::Normal, true),
        (ProgressIndicatorState::Paused, true),
        (ProgressIndicatorState::Error, true),
    ] {
        let calls = ind.set_progress_state(state);
        assert_eq!(ind.progress_visible(), visible);
        assert_eq!(calls, vec![call(SubBackend::XApps, LinuxCommand::SetProgressVisible(visible))]);
    }
}

#[test]
fn linux_state_steps_repeat_identically() {
    let mut ind = TaskbarIndicator::new(true);
    for state in [
        ProgressIndicatorState::NoProgress,
        ProgressIndicatorState::Indeterminate,
        ProgressIndicatorState::Normal,
    ] {
        let first = ind.set_progress_state(state);
        let second = ind.set_progress_state(state);
        assert_eq!(first, second);
    }
}

#[test]
fn linux_attach_replays_state_exactly() {
    let mut ind = TaskbarIndicator::new(true);
    ind.set_progress(300_000_000);
    ind.set_progress_state(ProgressIndicatorState::Paused);
    ind.needs_attention(true);
    let replay = ind.set_unity_app_uri("application://app.desktop".to_string());
    assert_eq!(
        replay,
        vec![
            call(SubBackend::Unity, LinuxCommand::SetProgress(300_000_000)),
            call(SubBackend::Unity, LinuxCommand::SetProgressVisible(true)),
            call(SubBackend::Unity, LinuxCommand::NeedsAttention(true)),
        ]
    );
    assert_eq!(ind.unity_uri().map(|s| s.as_str()), Some("application://app.desktop"));
    let calls = ind.needs_attention(false);
    assert_eq!(
        calls,
        vec![
            call(SubBackend::XApps, LinuxCommand::NeedsAttention(false)),
            call(SubBackend::Unity, LinuxCommand::NeedsAttention(false)),
        ]
    );
    assert!(!ind.attention_requested());
}

#[test]
fn linux_attach_on_fresh_indicator_replays_defaults() {
    let mut ind = TaskbarIndicator::new(false);
    let replay = ind.set_unity_app_uri("application://x.desktop".to_string());
    assert_eq!(
        replay,
        vec![
            call(SubBackend::Unity, LinuxCommand::SetProgress(0)),
            call(SubBackend::Unity, LinuxCommand::SetProgressVisible(false)),
            call(SubBackend::Unity, LinuxCommand::NeedsAttention(false)),
        ]
    );
}

#[test]
fn linux_no_backends_every_call_is_a_no_op() {
    let mut ind = TaskbarIndicator::new(false);
    assert!(ind.set_progress(500_000_000).is_empty());
    assert!(ind.set_progress_state(ProgressIndicatorState::Error).is_empty());
    assert!(ind.needs_attention(true).is_empty());
    assert!(ind.needs_attention(false).is_empty());
    assert_eq!(ind.progress(), 500_000_000);
}
