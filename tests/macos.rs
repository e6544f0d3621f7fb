use taskbar_progress::macos::{bar_config, dock_tile_setup, BarConfig, DockCall, DockSetupStep, TaskbarIndicator};
use taskbar_progress::progress::PROGRESS_ONE;
use taskbar_progress::state::ProgressIndicatorState;

#[test]
fn dock_setup_over_existing_content_view() {
    assert_eq!(
        dock_tile_setup(true, true),
        vec![DockSetupStep::ConfigureBar, DockSetupStep::AddToContentView]
    );
}

#[test]
fn dock_setup_builds_icon_view() {
    assert_eq!(
        dock_tile_setup(false, true),
        vec![
            DockSetupStep::ConfigureBar,
            DockSetupStep::CreateIconView,
            DockSetupStep::SetIconImage,
            DockSetupStep::AddToIconView,
            DockSetupStep::InstallIconView,
        ]
    );
    assert_eq!(
        dock_tile_setup(false, false),
        vec![
            DockSetupStep::ConfigureBar,
            DockSetupStep::CreateIconView,
            DockSetupStep::AddToIconView,
            DockSetupStep::InstallIconView,
        ]
    );
}

#[test]
fn dock_bar_initial_configuration() {
    assert_eq!(
        bar_config(),
        BarConfig {
            bar_style: true,
            bezeled: true,
            hidden: false,
            indeterminate: true,
            threaded_animation: true,
            displayed_when_stopped: true,
            min_value: 0,
            max_value: 100,
            height: 10,
        }
    );
}

#[test]
fn dock_new_bar_is_indeterminate_and_shown() {
    let ind = TaskbarIndicator::new();
    assert!(!ind.hidden());
    assert!(ind.indeterminate());
    assert!(!ind.animating());
    assert_eq!(ind.value(), 0);
}

#[test]
fn dock_set_progress_applies_normal_then_value() {
    let mut ind = TaskbarIndicator::new();
    ind.set_progress_state(ProgressIndicatorState::NoProgress);
    let calls = ind.set_progress(1_700_000_000);
    assert_eq!(ind.value(), PROGRESS_ONE);
    assert!(!ind.hidden());
    assert!(!ind.indeterminate());
    assert_eq!(
        calls,
        vec![
            DockCall::SetHidden(false),
            DockCall::SetIndeterminate(false),
            DockCall::StopAnimation,
            DockCall::Display,
            DockCall::SetValue(PROGRESS_ONE),
            DockCall::SetIndeterminate(false),
            DockCall::Display,
        ]
    );
}

#[test]
fn dock_state_mapping() {
    let mut ind = TaskbarIndicator::new();
    assert_eq!(
        ind.set_progress_state(ProgressIndicatorState::NoProgress),
        vec![DockCall::SetHidden(true), DockCall::StopAnimation, DockCall::Display]
    );
    assert!(ind.hidden());
    assert_eq!(
        ind.set_progress_state(ProgressIndicatorState::Indeterminate),
        vec![
            DockCall::SetHidden(false),
            DockCall::SetIndeterminate(true),
            DockCall::StartAnimation,
            DockCall::Display,
        ]
    );
    assert!(ind.animating() && ind.indeterminate());
    for state in [
        ProgressIndicatorState::Normal,
        ProgressIndicatorState::Paused,
        ProgressIndicatorState::Error,
    ] {
        assert_eq!(
            ind.set_progress_state(state),
            vec![
                DockCall::SetHidden(false),
                DockCall::SetIndeterminate(false),
                DockCall::StopAnimation,
                DockCall::Display,
            ]
        );
        assert!(!ind.animating() && !ind.indeterminate() && !ind.hidden());
    }
}

#[test]
fn dock_withdrawn_attention_is_a_no_op() {
    let mut ind = TaskbarIndicator::new();
    assert!(ind.needs_attention(false).is_empty());
    assert_eq!(ind.needs_attention(true), vec![DockCall::RequestAttention]);
}
