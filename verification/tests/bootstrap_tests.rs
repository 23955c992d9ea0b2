use omnideck_desktop::bootstrap::authorize_onboarding;
use omnideck_desktop::setup::{
    debug_forced_state, error_state, initial_screen, phase_index, preparing_state,
    progress_state_for_event, ready_state, setup_result_state, welcome_state,
};
use omnideck_desktop::{
    BootstrapError, BootstrapState, CliError, CliErrorBody, ProgressMark, RecoveryAction,
    RuntimeContainerResources, RuntimeMachineResources, RuntimeResources, RuntimeSetupEvent,
    RuntimeStatus, WindowUrl,
};

fn cli(code: &str, message: &str) -> CliError {
    CliError::Cli(Box::new(CliErrorBody {
        code: code.into(),
        message: message.into(),
        hint: None,
        detail: None,
        action: None,
        action_value: None,
        instances: None,
    }))
}

fn status(state: &str, ready: bool) -> RuntimeStatus {
    RuntimeStatus {
        schema_version: 4,
        runtime: "podman".to_string(),
        state: state.to_string(),
        ready,
        path: None,
        version: None,
        detail: None,
        warning: None,
        machine_name: None,
        phase: "environment".to_string(),
        activity: "x".to_string(),
        resources: RuntimeResources {
            container: RuntimeContainerResources {
                memory: "2g".to_string(),
                shm_size: "1g".to_string(),
            },
            machine: RuntimeMachineResources {
                mode: "host-native".to_string(),
                cpus: None,
                memory_mb: None,
                disk_gb: None,
            },
        },
    }
}

#[test]
fn phase_index_matches_the_cli_stage_ids() {
    assert_eq!(phase_index("software"), Some(0));
    assert_eq!(phase_index("environment"), Some(1));
    assert_eq!(phase_index("complete"), None);
}

#[test]
fn welcome_state_can_start_and_nothing_else() {
    let state = welcome_state();
    assert_eq!(state.stage, "welcome");
    assert!(state.can_start);
    assert!(!state.can_retry);
    assert!(!state.can_open);
}

#[test]
fn ready_state_can_open_at_full_progress() {
    let state = ready_state();
    assert_eq!(state.stage, "ready");
    assert!(state.can_open);
    assert_eq!(state.progress, Some(ProgressMark::Complete));
}

#[test]
fn restart_required_is_not_retryable() {
    let error = cli("RESTART_REQUIRED", "Reboot to finish enabling WSL2.");
    let state = error_state(&error, 0);
    assert_eq!(state.stage, "error");
    assert!(!state.can_retry);
    assert_eq!(state.primary_action.as_deref(), Some("quit"));
}

#[test]
fn download_failed_is_retryable() {
    let error = cli("DOWNLOAD_FAILED", "network blip");
    let state = error_state(&error, 0);
    assert!(state.can_retry);
    assert_eq!(state.primary_action.as_deref(), Some("retry"));
}

#[test]
fn error_diagnostics_mark_the_failed_phase_and_leave_later_phases_waiting() {
    let error = cli("RUNTIME_SETUP_FAILED", "x");
    let state = error_state(&error, 1);
    let diagnostics = state.diagnostics.unwrap();
    assert_eq!(diagnostics[0].status, "pass");
    assert_eq!(diagnostics[1].status, "issue");
}

#[test]
fn version_too_old_is_not_retryable() {
    let error = CliError::VersionTooOld {
        minimum: "v0.10.0".into(),
        actual: "v0.9.0".into(),
    };
    let state = error_state(&error, 0);
    assert!(!state.can_retry);
    assert_eq!(state.primary_action.as_deref(), Some("quit"));
    assert_eq!(
        state.detail,
        "This app requires omnideck v0.10.0 or newer, but found v0.9.0. Please reinstall Omnideck."
    );
}

#[test]
fn debug_forced_state_covers_every_stage_and_nothing_else() {
    for (value, expected_stage) in [
        ("welcome", "welcome"),
        ("preparing", "preparing"),
        ("permission", "preparing"),
        ("ready", "ready"),
        ("error", "error"),
    ] {
        let state = debug_forced_state(value).expect("known stage must resolve");
        assert_eq!(state.stage, expected_stage);
    }
    assert!(debug_forced_state("not-a-real-stage").is_none());
    assert!(debug_forced_state("").is_none());
}

#[test]
fn permission_debug_stage_is_indeterminate_and_carries_status() {
    let state = debug_forced_state("permission").expect("permission stage must resolve");
    assert!(state.awaiting_permission);
    assert!(state.indeterminate);
    assert_eq!(state.status.as_deref(), Some("Password required"));
    assert_eq!(state.substage.as_deref(), Some("linux-permission"));
}

#[test]
fn forced_error_stage_says_it_is_simulated() {
    let state = debug_forced_state("error").unwrap();
    assert_eq!(state.title, "Download failed");
    assert_eq!(
        state.technical.as_deref(),
        Some("omnideck CLI error [DOWNLOAD_FAILED]: Simulated failure — set by OMNIDECK_DEBUG_ONBOARDING_STAGE=error.")
    );
    let preparing = debug_forced_state("preparing").unwrap();
    assert_eq!(preparing.progress, Some(ProgressMark::Phase(1)));
    assert_eq!(preparing.activity.as_deref(), Some("Preparing a secure space to run in…"));
}

#[test]
fn the_four_new_contract_3_error_codes_are_all_retryable() {
    for code in [
        "PERMISSION_CANCELLED",
        "WINDOWS_FEATURES_FAILED",
        "PACKAGE_INDEX_FAILED",
        "INSTALLER_FAILED",
    ] {
        let error = cli(code, "x");
        let state = error_state(&error, 0);
        assert!(state.can_retry, "{code} should be retryable");
        assert_eq!(state.primary_action.as_deref(), Some("retry"));
    }
}

#[test]
fn error_screen_copy_for_each_failure() {
    let cases = [
        (cli("RESTART_REQUIRED", "m"), "Restart needed", "m", false, "Quit Omnideck"),
        (cli("PERMISSION_DENIED", "m"), "Permission needed", "m", true, "Try again"),
        (
            cli("DOWNLOAD_FAILED", "m"),
            "Download failed",
            "Check your internet connection, then try again.",
            true,
            "Try again",
        ),
        (cli("UNSUPPORTED", "m"), "This computer isn't supported", "m", false, "Quit Omnideck"),
        (cli("PERMISSION_CANCELLED", "m"), "Permission not granted", "m", true, "Try again"),
        (cli("WINDOWS_FEATURES_FAILED", "m"), "Windows setup couldn't finish", "m", true, "Try again"),
        (cli("PACKAGE_INDEX_FAILED", "m"), "Couldn't check available software", "m", true, "Try again"),
        (cli("INSTALLER_FAILED", "m"), "Installation failed", "m", true, "Try again"),
        (cli("SOMETHING_ELSE", "m"), "Setup needs attention", "m", true, "Try again"),
        (
            CliError::ContractMismatch { expected: 3, actual: 2 },
            "Omnideck needs an update",
            "This app build doesn't match the bundled Omnideck CLI. Please reinstall Omnideck.",
            false,
            "Quit Omnideck",
        ),
        (
            CliError::RuntimeSchemaMismatch { expected: 4, actual: 5 },
            "Omnideck needs an update",
            "This app build doesn't match the bundled Omnideck CLI. Please reinstall Omnideck.",
            false,
            "Quit Omnideck",
        ),
        (
            CliError::Timeout,
            "Setup needs attention",
            "omnideck CLI did not finish in time",
            true,
            "Try again",
        ),
    ];
    for (error, title, detail, retry, label) in cases {
        let state = error_state(&error, 0);
        assert_eq!(state.title, title);
        assert_eq!(state.detail, detail);
        assert_eq!(state.can_retry, retry);
        assert_eq!(state.primary_label.as_deref(), Some(label));
        assert_eq!(state.secondary_action.as_deref(), Some("quit"));
        assert_eq!(state.secondary_label.as_deref(), Some("Quit"));
        assert_eq!(state.technical, Some(error.to_message()));
        assert!(!state.can_start && !state.can_open);
        let diagnostics = state.diagnostics.unwrap();
        assert_eq!(diagnostics.len(), 2);
        assert_eq!(diagnostics[0].id, "software");
        assert_eq!(diagnostics[0].label, "Installing Podman");
        assert_eq!(diagnostics[0].status, "issue");
        assert_eq!(diagnostics[1].id, "environment");
        assert_eq!(diagnostics[1].status, "waiting");
    }
}

#[test]
fn technical_text_is_cut_at_4000_characters() {
    let long = "é".repeat(5000);
    let state = error_state(&CliError::Spawn { message: long.clone() }, 2);
    let technical = state.technical.unwrap();
    assert_eq!(technical.chars().count(), 4000);
    assert!(("failed to run omnideck CLI: ".to_string() + &long).starts_with(&technical));
    let diagnostics = state.diagnostics.unwrap();
    assert_eq!(diagnostics[0].status, "pass");
    assert_eq!(diagnostics[1].status, "pass");
}

#[test]
fn preparing_screens() {
    let state = preparing_state(None, None, None, None, false);
    assert!(state.indeterminate);
    assert_eq!(state.progress, None);
    assert_eq!(state.activity, None);
    let state = preparing_state(Some(0), None, None, None, false);
    assert!(!state.indeterminate);
    assert_eq!(state.progress, Some(ProgressMark::Phase(0)));
    assert_eq!(state.activity.as_deref(), Some("Installing Podman"));
    let state = preparing_state(Some(1), Some("CLI text".into()), None, None, true);
    assert!(state.indeterminate);
    assert_eq!(state.activity.as_deref(), Some("CLI text"));
    assert_eq!(state.title, "Setting things up");
}

#[test]
fn progress_events_prefer_the_detail() {
    let event = RuntimeSetupEvent {
        stage: "software".into(),
        substage: Some("linux-permission".into()),
        state: Some("permission".into()),
        activity: Some("Waiting for approval from your computer…".into()),
        status: Some("Password required".into()),
        detail: Some("Your computer will ask you".into()),
    };
    let state = progress_state_for_event(event);
    assert!(state.awaiting_permission && state.indeterminate);
    assert_eq!(state.activity.as_deref(), Some("Your computer will ask you"));
    assert_eq!(state.progress, Some(ProgressMark::Phase(0)));
    let event = RuntimeSetupEvent {
        stage: "environment".into(),
        substage: None,
        state: Some("progress".into()),
        activity: Some("Preparing".into()),
        status: None,
        detail: None,
    };
    let state = progress_state_for_event(event);
    assert!(!state.awaiting_permission && !state.indeterminate);
    assert_eq!(state.activity.as_deref(), Some("Preparing"));
    assert_eq!(state.progress, Some(ProgressMark::Phase(1)));
    let event = RuntimeSetupEvent {
        stage: "unknown".into(),
        substage: None,
        state: None,
        activity: None,
        status: None,
        detail: None,
    };
    let state = progress_state_for_event(event);
    assert!(state.indeterminate);
    assert_eq!(state.activity, None);
}

#[test]
fn setup_results() {
    assert_eq!(setup_result_state(&Ok(status("ready", true))).stage, "ready");
    let state = setup_result_state(&Ok(status("stopped", false)));
    assert_eq!(state.stage, "error");
    assert_eq!(
        state.detail,
        "Podman setup finished, but the runtime is still not ready (stopped)."
    );
    assert!(state.can_retry);
    let diagnostics = state.diagnostics.unwrap();
    assert_eq!(diagnostics[0].status, "pass");
    assert_eq!(diagnostics[1].status, "pass");
    let state = setup_result_state(&Err(CliError::Timeout));
    let diagnostics = state.diagnostics.unwrap();
    assert_eq!(diagnostics[0].status, "pass");
    assert_eq!(diagnostics[1].status, "issue");
}

#[test]
fn onboarding_is_only_revealed_when_setup_is_needed() {
    let screen = initial_screen(&Ok(status("ready", true)));
    assert!(!screen.show_onboarding);
    assert_eq!(screen.state.stage, "ready");
    let screen = initial_screen(&Ok(status("missing", false)));
    assert!(screen.show_onboarding);
    assert_eq!(screen.state.stage, "welcome");
    let screen = initial_screen(&Err(CliError::NoOutput));
    assert!(screen.show_onboarding);
    assert_eq!(screen.state.stage, "error");
}

fn url(scheme: &str, host: Option<&str>) -> WindowUrl {
    WindowUrl { scheme: scheme.into(), host: host.map(Into::into) }
}

#[test]
fn only_the_local_onboarding_window_is_authorized() {
    assert!(authorize_onboarding("onboarding", Some(&url("tauri", Some("localhost")))).is_ok());
    assert!(authorize_onboarding("onboarding", Some(&url("http", Some("tauri.localhost")))).is_ok());
    assert!(authorize_onboarding("onboarding", Some(&url("https", Some("tauri.localhost")))).is_ok());
    for (label, u) in [
        ("main", Some(url("tauri", Some("localhost")))),
        ("onboarding", Some(url("https", Some("example.com")))),
        ("onboarding", Some(url("http", Some("localhost")))),
        ("onboarding", Some(url("tauri", None))),
        ("onboarding", None),
    ] {
        assert!(matches!(
            authorize_onboarding(label, u.as_ref()),
            Err(BootstrapError::OriginDenied)
        ));
    }
}

#[test]
fn actions_follow_the_last_pushed_screen() {
    let mut state = BootstrapState::default();
    assert!(matches!(state.run_action("quit"), Err(BootstrapError::ActionDenied)));
    assert!(matches!(state.open_dashboard(), Err(BootstrapError::ActionDenied)));

    state.record_screen(&error_state(&cli("RESTART_REQUIRED", "m"), 0));
    assert_eq!(state.run_action("quit").unwrap(), RecoveryAction::Quit);
    assert!(matches!(state.run_action("retry"), Err(BootstrapError::ActionDenied)));

    state.record_screen(&error_state(&cli("DOWNLOAD_FAILED", "m"), 0));
    assert_eq!(state.run_action("quit").unwrap(), RecoveryAction::Quit);
    assert!(matches!(state.run_action("retry"), Err(BootstrapError::ActionDenied)));
    assert!(matches!(state.run_action("reboot"), Err(BootstrapError::ActionDenied)));
    assert!(state.open_dashboard().is_err());

    state.record_screen(&welcome_state());
    assert!(matches!(state.run_action("quit"), Err(BootstrapError::ActionDenied)));

    state.record_screen(&ready_state());
    assert!(state.open_dashboard().is_ok());
    state.record_screen(&preparing_state(None, None, None, None, false));
    assert!(state.open_dashboard().is_err());
}

#[test]
fn setup_cannot_be_started_twice() {
    let mut state = BootstrapState::new();
    assert!(state.begin_setup());
    assert!(!state.begin_setup());
    state.finish_setup();
    assert!(state.begin_setup());
}

#[test]
fn cli_errors_convert_into_bootstrap_errors() {
    let error: BootstrapError = CliError::Timeout.into();
    assert!(matches!(error, BootstrapError::Cli(CliError::Timeout)));
}
