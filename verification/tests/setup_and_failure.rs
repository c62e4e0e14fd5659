use shell_bootstrap::bootstrap::{
    conclude, startup_failure_message, BuildKind, ProcessEnd, RunReport,
};
use shell_bootstrap::setup::{
    devtools_decision, main_window_label_str, window_probe, SetupOutcome,
};

#[test]
fn debug_build_probes_for_the_main_window() {
    assert_eq!(window_probe(BuildKind::Debug), Some("main"));
    assert_eq!(main_window_label_str(), "main");
}

#[test]
fn release_build_probes_for_no_window_at_all() {
    assert_eq!(window_probe(BuildKind::Release), None);
}

#[test]
fn debug_setup_opens_devtools_when_the_main_window_exists() {
    assert_eq!(devtools_decision(true), SetupOutcome::DevtoolsOpened);
}

#[test]
fn debug_setup_aborts_startup_when_the_main_window_is_missing() {
    assert_eq!(devtools_decision(false), SetupOutcome::StartupAborted);
}

#[test]
fn a_reported_failure_is_fatal_with_the_fixed_message() {
    assert_eq!(conclude(RunReport::Failed), ProcessEnd::AbortedWithMessage);
    assert_eq!(
        startup_failure_message(),
        "error while running tauri application"
    );
}

#[test]
fn a_clean_exit_is_not_fatal() {
    assert_eq!(conclude(RunReport::Exited), ProcessEnd::Exited);
}
