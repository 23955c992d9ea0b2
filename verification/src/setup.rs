//! The onboarding screens: what each stage of the shared runtime's setup
//! shows, and which actions it offers.

use vstd::prelude::*;
use vstd::string::*;
use crate::cli_error::{CliError, CliErrorBody};
use crate::model::{RuntimeSetupEvent, RuntimeStatus};
use crate::text::str_equals;

verus! {

/// Number of setup phases.
pub const PHASE_COUNT: usize = 2;

/// The id of phase `i`, in the CLI's own stage vocabulary.
pub open spec fn phase_id(i: int) -> Seq<char> {
    if i == 0 {
        "software"@
    } else {
        "environment"@
    }
}

/// The fallback label of phase `i`, shown before the CLI has said anything.
pub open spec fn phase_label(i: int) -> Seq<char> {
    if i == 0 {
        "Installing Podman"@
    } else {
        "Preparing a secure space"@
    }
}

/// The index of the phase with this id.
pub open spec fn phase_index_spec(id: Seq<char>) -> Option<usize> {
    if id == "software"@ {
        Some(0)
    } else if id == "environment"@ {
        Some(1)
    } else {
        None
    }
}

/// The index of the setup phase that the CLI's stage `id` names.
pub fn phase_index(id: &str) -> (r: Option<usize>)
    ensures
        r == phase_index_spec(id@),
{
    if str_equals(id, "software") {
        Some(0)
    } else if str_equals(id, "environment") {
        Some(1)
    } else {
        None
    }
}

fn phase_id_string(i: usize) -> (r: String)
    requires
        i < PHASE_COUNT,
    ensures
        r@ == phase_id(i as int),
{
    if i == 0 {
        String::from_str("software")
    } else {
        String::from_str("environment")
    }
}

fn phase_label_string(i: usize) -> (r: String)
    requires
        i < PHASE_COUNT,
    ensures
        r@ == phase_label(i as int),
{
    if i == 0 {
        String::from_str("Installing Podman")
    } else {
        String::from_str("Preparing a secure space")
    }
}

/// How far along the progress bar stands. Its fraction is drawn by the
/// frontend from the phase weights and the CLI's own progress.
#[derive(Debug, Clone, Copy, PartialEq, Eq)]
pub enum ProgressMark {
    /// Somewhere inside phase `0`-based index.
    Phase(usize),
    /// Full.
    Complete,
}

/// One phase's line in the error screen's diagnostics.
#[derive(Debug, Clone)]
pub struct Diagnostic {
    pub id: String,
    pub label: String,
    /// `"pass"`, `"issue"` or `"waiting"`.
    pub status: String,
}

/// One onboarding screen, fully describing what the frontend renders.
#[derive(Debug, Clone)]
pub struct SetupState {
    /// `"welcome"`, `"preparing"`, `"ready"` or `"error"`.
    pub stage: String,
    pub title: String,
    pub detail: String,
    pub progress: Option<ProgressMark>,
    pub indeterminate: bool,
    pub can_start: bool,
    pub can_retry: bool,
    pub can_open: bool,
    pub activity: Option<String>,
    pub status: Option<String>,
    pub substage: Option<String>,
    pub awaiting_permission: bool,
    pub primary_action: Option<String>,
    pub primary_label: Option<String>,
    pub secondary_action: Option<String>,
    pub secondary_label: Option<String>,
    pub diagnostics: Option<Vec<Diagnostic>>,
    pub technical: Option<String>,
}

/// A diagnostic line as text.
pub struct DiagnosticView {
    pub id: Seq<char>,
    pub label: Seq<char>,
    pub status: Seq<char>,
}

/// A screen as text.
pub struct SetupView {
    pub stage: Seq<char>,
    pub title: Seq<char>,
    pub detail: Seq<char>,
    pub progress: Option<ProgressMark>,
    pub indeterminate: bool,
    pub can_start: bool,
    pub can_retry: bool,
    pub can_open: bool,
    pub activity: Option<Seq<char>>,
    pub status: Option<Seq<char>>,
    pub substage: Option<Seq<char>>,
    pub awaiting_permission: bool,
    pub primary_action: Option<Seq<char>>,
    pub primary_label: Option<Seq<char>>,
    pub secondary_action: Option<Seq<char>>,
    pub secondary_label: Option<Seq<char>>,
    pub diagnostics: Option<Seq<DiagnosticView>>,
    pub technical: Option<Seq<char>>,
}

pub open spec fn opt_view(o: Option<String>) -> Option<Seq<char>> {
    match o {
        Some(s) => Some(s@),
        None => None,
    }
}

impl View for Diagnostic {
    type V = DiagnosticView;

    open spec fn view(&self) -> DiagnosticView {
        DiagnosticView { id: self.id@, label: self.label@, status: self.status@ }
    }
}

impl View for SetupState {
    type V = SetupView;

    open spec fn view(&self) -> SetupView {
        SetupView {
            stage: self.stage@,
            title: self.title@,
            detail: self.detail@,
            progress: self.progress,
            indeterminate: self.indeterminate,
            can_start: self.can_start,
            can_retry: self.can_retry,
            can_open: self.can_open,
            activity: opt_view(self.activity),
            status: opt_view(self.status),
            substage: opt_view(self.substage),
            awaiting_permission: self.awaiting_permission,
            primary_action: opt_view(self.primary_action),
            primary_label: opt_view(self.primary_label),
            secondary_action: opt_view(self.secondary_action),
            secondary_label: opt_view(self.secondary_label),
            diagnostics: match self.diagnostics {
                Some(d) => Some(d@.map_values(|x: Diagnostic| x@)),
                None => None,
            },
            technical: opt_view(self.technical),
        }
    }
}

/// A screen with only its stage and copy set: nothing offered, no progress.
pub open spec fn base_view(stage: Seq<char>, title: Seq<char>, detail: Seq<char>) -> SetupView {
    SetupView {
        stage,
        title,
        detail,
        progress: None,
        indeterminate: false,
        can_start: false,
        can_retry: false,
        can_open: false,
        activity: None,
        status: None,
        substage: None,
        awaiting_permission: false,
        primary_action: None,
        primary_label: None,
        secondary_action: None,
        secondary_label: None,
        diagnostics: None,
        technical: None,
    }
}

fn base_state(stage: &str, title: &str, detail: &str) -> (r: SetupState)
    ensures
        r@ == base_view(stage@, title@, detail@),
{
    SetupState {
        stage: String::from_str(stage),
        title: String::from_str(title),
        detail: String::from_str(detail),
        progress: None,
        indeterminate: false,
        can_start: false,
        can_retry: false,
        can_open: false,
        activity: None,
        status: None,
        substage: None,
        awaiting_permission: false,
        primary_action: None,
        primary_label: None,
        secondary_action: None,
        secondary_label: None,
        diagnostics: None,
        technical: None,
    }
}

/// The first screen: it offers to start, and nothing else.
pub open spec fn welcome_view() -> SetupView {
    SetupView {
        can_start: true,
        ..base_view(
            "welcome"@,
            "Let's get Omnideck ready"@,
            "Omnideck runs your agents in an isolated Podman environment. This only needs to happen once."@,
        )
    }
}

pub fn welcome_state() -> (r: SetupState)
    ensures
        r@ == welcome_view(),
{
    let mut state = base_state(
        "welcome",
        "Let's get Omnideck ready",
        "Omnideck runs your agents in an isolated Podman environment. This only needs to happen once.",
    );
    state.can_start = true;
    state
}

/// A setup-in-progress screen. The activity is the CLI's own text when it
/// gave one, else the phase's label; the bar is indeterminate when the
/// phase is unknown or the CLI waits on a permission prompt.
pub open spec fn preparing_view(
    phase: Option<usize>,
    activity: Option<Seq<char>>,
    status: Option<Seq<char>>,
    substage: Option<Seq<char>>,
    awaiting_permission: bool,
) -> SetupView {
    SetupView {
        progress: match phase {
            Some(i) => Some(ProgressMark::Phase(i)),
            None => None,
        },
        indeterminate: phase is None || awaiting_permission,
        activity: match activity {
            Some(a) => Some(a),
            None => match phase {
                Some(i) => Some(phase_label(i as int)),
                None => None,
            },
        },
        status,
        substage,
        awaiting_permission,
        ..base_view(
            "preparing"@,
            "Setting things up"@,
            "This can take a few minutes the first time."@,
        )
    }
}

pub fn preparing_state(
    phase: Option<usize>,
    activity: Option<String>,
    status: Option<String>,
    substage: Option<String>,
    awaiting_permission: bool,
) -> (r: SetupState)
    requires
        phase matches Some(i) ==> i < PHASE_COUNT,
    ensures
        r@ == preparing_view(
            phase,
            opt_view(activity),
            opt_view(status),
            opt_view(substage),
            awaiting_permission,
        ),
{
    let mut state = base_state(
        "preparing",
        "Setting things up",
        "This can take a few minutes the first time.",
    );
    state.progress = match phase {
        Some(i) => Some(ProgressMark::Phase(i)),
        None => None,
    };
    state.indeterminate = phase.is_none() || awaiting_permission;
    state.activity = match activity {
        Some(a) => Some(a),
        None => match phase {
            Some(i) => Some(phase_label_string(i)),
            None => None,
        },
    };
    state.status = status;
    state.substage = substage;
    state.awaiting_permission = awaiting_permission;
    state
}

/// The last screen: full progress, it offers to open the dashboard.
pub open spec fn ready_view() -> SetupView {
    SetupView {
        progress: Some(ProgressMark::Complete),
        can_open: true,
        ..base_view(
            "ready"@,
            "Omnideck is ready"@,
            "Everything is prepared. Continue to your Decks."@,
        )
    }
}

pub fn ready_state() -> (r: SetupState)
    ensures
        r@ == ready_view(),
{
    let mut state = base_state(
        "ready",
        "Omnideck is ready",
        "Everything is prepared. Continue to your Decks.",
    );
    state.progress = Some(ProgressMark::Complete);
    state.can_open = true;
    state
}

/// Title, detail, whether retrying makes sense, and the primary button's
/// label, for a structured CLI error with this code and message.
pub open spec fn cli_body_copy(code: Seq<char>, message: Seq<char>) -> (Seq<char>, Seq<char>, bool, Seq<char>) {
    if code == "RESTART_REQUIRED"@ {
        ("Restart needed"@, message, false, "Quit Omnideck"@)
    } else if code == "PERMISSION_DENIED"@ {
        ("Permission needed"@, message, true, "Try again"@)
    } else if code == "DOWNLOAD_FAILED"@ {
        ("Download failed"@, "Check your internet connection, then try again."@, true, "Try again"@)
    } else if code == "UNSUPPORTED"@ {
        ("This computer isn't supported"@, message, false, "Quit Omnideck"@)
    } else if code == "PERMISSION_CANCELLED"@ {
        ("Permission not granted"@, message, true, "Try again"@)
    } else if code == "WINDOWS_FEATURES_FAILED"@ {
        ("Windows setup couldn't finish"@, message, true, "Try again"@)
    } else if code == "PACKAGE_INDEX_FAILED"@ {
        ("Couldn't check available software"@, message, true, "Try again"@)
    } else if code == "INSTALLER_FAILED"@ {
        ("Installation failed"@, message, true, "Try again"@)
    } else {
        ("Setup needs attention"@, message, true, "Try again"@)
    }
}

/// Title, detail, retryability and primary label for any failure: CLI
/// error codes have their own copy, a too-old CLI or a contract or schema
/// mismatch asks for a reinstall, anything else shows the error's text.
pub open spec fn error_copy(error: CliError) -> (Seq<char>, Seq<char>, bool, Seq<char>) {
    match error {
        CliError::Cli(body) => cli_body_copy(body.code@, body.message@),
        CliError::VersionTooOld { minimum, actual } => (
            "Omnideck needs an update"@,
            "This app requires omnideck "@ + minimum@ + " or newer, but found "@ + actual@
                + ". Please reinstall Omnideck."@,
            false,
            "Quit Omnideck"@,
        ),
        CliError::ContractMismatch { .. } | CliError::RuntimeSchemaMismatch { .. } => (
            "Omnideck needs an update"@,
            "This app build doesn't match the bundled Omnideck CLI. Please reinstall Omnideck."@,
            false,
            "Quit Omnideck"@,
        ),
        _ => ("Setup needs attention"@, error.message_spec(), true, "Try again"@),
    }
}

/// Status of phase `i` when setup failed in phase `reached`.
pub open spec fn diagnostic_status(i: int, reached: int) -> Seq<char> {
    if i < reached {
        "pass"@
    } else if i == reached {
        "issue"@
    } else {
        "waiting"@
    }
}

pub open spec fn diagnostic_view(i: int, reached: int) -> DiagnosticView {
    DiagnosticView { id: phase_id(i), label: phase_label(i), status: diagnostic_status(i, reached) }
}

/// At most the first 4000 characters of `s`.
pub open spec fn technical_text(s: Seq<char>) -> Seq<char> {
    if s.len() <= 4000 {
        s
    } else {
        s.take(4000)
    }
}

/// The error screen for a failure with this copy and text, reached in phase
/// `reached`: retry is primary when retrying makes sense, quit otherwise,
/// and quit is always secondary; phases before `reached` passed, `reached`
/// has the issue, later ones are waiting.
pub open spec fn error_screen_view(
    copy: (Seq<char>, Seq<char>, bool, Seq<char>),
    text: Seq<char>,
    reached: int,
) -> SetupView {
    SetupView {
        can_retry: copy.2,
        primary_action: Some(
            if copy.2 {
                "retry"@
            } else {
                "quit"@
            },
        ),
        primary_label: Some(copy.3),
        secondary_action: Some("quit"@),
        secondary_label: Some("Quit"@),
        technical: Some(technical_text(text)),
        diagnostics: Some(seq![diagnostic_view(0, reached), diagnostic_view(1, reached)]),
        ..base_view("error"@, copy.0, copy.1)
    }
}

pub open spec fn error_view(error: CliError, reached: int) -> SetupView {
    error_screen_view(error_copy(error), error.message_spec(), reached)
}

fn diagnostic(i: usize, reached: usize) -> (r: Diagnostic)
    requires
        i < PHASE_COUNT,
    ensures
        r@ == diagnostic_view(i as int, reached as int),
{
    let status = if i < reached {
        String::from_str("pass")
    } else if i == reached {
        String::from_str("issue")
    } else {
        String::from_str("waiting")
    };
    Diagnostic { id: phase_id_string(i), label: phase_label_string(i), status }
}

fn cli_body_copy_exec(body: &CliErrorBody) -> (r: (String, String, bool, String))
    ensures
        ({
            let c = cli_body_copy(body.code@, body.message@);
            r.0@ == c.0 && r.1@ == c.1 && r.2 == c.2 && r.3@ == c.3
        }),
{
    let code = body.code.as_str();
    let message = body.message.clone();
    if str_equals(code, "RESTART_REQUIRED") {
        (String::from_str("Restart needed"), message, false, String::from_str("Quit Omnideck"))
    } else if str_equals(code, "PERMISSION_DENIED") {
        (String::from_str("Permission needed"), message, true, String::from_str("Try again"))
    } else if str_equals(code, "DOWNLOAD_FAILED") {
        (
            String::from_str("Download failed"),
            String::from_str("Check your internet connection, then try again."),
            true,
            String::from_str("Try again"),
        )
    } else if str_equals(code, "UNSUPPORTED") {
        (
            String::from_str("This computer isn't supported"),
            message,
            false,
            String::from_str("Quit Omnideck"),
        )
    } else if str_equals(code, "PERMISSION_CANCELLED") {
        (String::from_str("Permission not granted"), message, true, String::from_str("Try again"))
    } else if str_equals(code, "WINDOWS_FEATURES_FAILED") {
        (
            String::from_str("Windows setup couldn't finish"),
            message,
            true,
            String::from_str("Try again"),
        )
    } else if str_equals(code, "PACKAGE_INDEX_FAILED") {
        (
            String::from_str("Couldn't check available software"),
            message,
            true,
            String::from_str("Try again"),
        )
    } else if str_equals(code, "INSTALLER_FAILED") {
        (String::from_str("Installation failed"), message, true, String::from_str("Try again"))
    } else {
        (String::from_str("Setup needs attention"), message, true, String::from_str("Try again"))
    }
}

fn error_copy_exec(error: &CliError) -> (r: (String, String, bool, String))
    ensures
        ({
            let c = error_copy(*error);
            r.0@ == c.0 && r.1@ == c.1 && r.2 == c.2 && r.3@ == c.3
        }),
{
    match error {
        CliError::Cli(body) => cli_body_copy_exec(body),
        CliError::VersionTooOld { minimum, actual } => (
            String::from_str("Omnideck needs an update"),
            String::from_str("This app requires omnideck ").concat(minimum.as_str()).concat(
                " or newer, but found ",
            ).concat(actual.as_str()).concat(". Please reinstall Omnideck."),
            false,
            String::from_str("Quit Omnideck"),
        ),
        CliError::ContractMismatch { .. } | CliError::RuntimeSchemaMismatch { .. } => (
            String::from_str("Omnideck needs an update"),
            String::from_str(
                "This app build doesn't match the bundled Omnideck CLI. Please reinstall Omnideck.",
            ),
            false,
            String::from_str("Quit Omnideck"),
        ),
        _ => (
            String::from_str("Setup needs attention"),
            error.to_message(),
            true,
            String::from_str("Try again"),
        ),
    }
}

/// The error screen for `error`, which happened in phase `reached_phase`.
pub fn error_state(error: &CliError, reached_phase: usize) -> (r: SetupState)
    ensures
        r@ == error_view(*error, reached_phase as int),
{
    let (title, detail, can_retry, primary_label) = error_copy_exec(error);
    let mut state = base_state("error", title.as_str(), detail.as_str());
    state.can_retry = can_retry;
    state.primary_action = Some(
        if can_retry {
            String::from_str("retry")
        } else {
            String::from_str("quit")
        },
    );
    state.primary_label = Some(primary_label);
    state.secondary_action = Some(String::from_str("quit"));
    state.secondary_label = Some(String::from_str("Quit"));
    let text = error.to_message();
    let n = text.as_str().unicode_len();
    let k = if n <= 4000 {
        n
    } else {
        4000
    };
    let technical = String::from_str(text.as_str().substring_char(0, k));
    proof {
        assert(technical@ =~= technical_text(error.message_spec()));
    }
    state.technical = Some(technical);
    let mut diagnostics: Vec<Diagnostic> = Vec::new();
    diagnostics.push(diagnostic(0, reached_phase));
    diagnostics.push(diagnostic(1, reached_phase));
    proof {
        assert(diagnostics@.map_values(|x: Diagnostic| x@) =~= seq![
            diagnostic_view(0, reached_phase as int),
            diagnostic_view(1, reached_phase as int),
        ]);
    }
    state.diagnostics = Some(diagnostics);
    state
}

/// The text of a structured CLI error with this code and message.
pub open spec fn cli_error_text(code: Seq<char>, message: Seq<char>) -> Seq<char> {
    "omnideck CLI error ["@ + code + "]: "@ + message
}

fn cli_failure(code: &str, message: String) -> (e: CliError)
    ensures
        e matches CliError::Cli(b) && b.code@ == code@ && b.message@ == message@,
        error_copy(e) == cli_body_copy(code@, message@),
        e.message_spec() == cli_error_text(code@, message@),
{
    CliError::Cli(
        Box::new(
            CliErrorBody {
                code: String::from_str(code),
                message,
                hint: None,
                detail: None,
                action: None,
                action_value: None,
                instances: None,
            },
        ),
    )
}

/// The message of the simulated failure a developer can force.
pub open spec fn simulated_failure_message(stage: Seq<char>) -> Seq<char> {
    "Simulated failure \u{2014} set by OMNIDECK_DEBUG_ONBOARDING_STAGE="@ + stage + "."@
}

/// The screen a developer forces by naming a stage: each of `welcome`,
/// `preparing`, `permission`, `ready` and `error` gives a representative
/// screen of that kind, any other name none.
pub open spec fn forced_view(stage: Seq<char>) -> Option<SetupView> {
    if stage == "welcome"@ {
        Some(welcome_view())
    } else if stage == "preparing"@ {
        Some(
            preparing_view(
                Some(1),
                Some("Preparing a secure space to run in\u{2026}"@),
                None,
                None,
                false,
            ),
        )
    } else if stage == "permission"@ {
        Some(
            preparing_view(
                Some(0),
                Some("Waiting for approval from your computer\u{2026}"@),
                Some("Password required"@),
                Some("linux-permission"@),
                true,
            ),
        )
    } else if stage == "ready"@ {
        Some(ready_view())
    } else if stage == "error"@ {
        let message = simulated_failure_message(stage);
        Some(
            error_screen_view(
                cli_body_copy("DOWNLOAD_FAILED"@, message),
                cli_error_text("DOWNLOAD_FAILED"@, message),
                0,
            ),
        )
    } else {
        None
    }
}

/// The onboarding screen that a developer forces with the stage name `stage`
/// (read by the app from its debug environment), to preview any screen
/// without touching the real runtime.
pub fn debug_forced_state(stage: &str) -> (r: Option<SetupState>)
    ensures
        match (r, forced_view(stage@)) {
            (Some(state), Some(view)) => state@ == view,
            (None, None) => true,
            _ => false,
        },
{
    if str_equals(stage, "welcome") {
        Some(welcome_state())
    } else if str_equals(stage, "preparing") {
        let index = phase_index("environment");
        proof {
            reveal_strlit("environment");
            reveal_strlit("software");
            assert("environment"@[0] != "software"@[0]);
        }
        Some(
            preparing_state(
                index,
                Some(String::from_str("Preparing a secure space to run in\u{2026}")),
                None,
                None,
                false,
            ),
        )
    } else if str_equals(stage, "permission") {
        let index = phase_index("software");
        Some(
            preparing_state(
                index,
                Some(String::from_str("Waiting for approval from your computer\u{2026}")),
                Some(String::from_str("Password required")),
                Some(String::from_str("linux-permission")),
                true,
            ),
        )
    } else if str_equals(stage, "ready") {
        Some(ready_state())
    } else if str_equals(stage, "error") {
        let message = String::from_str(
            "Simulated failure \u{2014} set by OMNIDECK_DEBUG_ONBOARDING_STAGE=",
        ).concat(stage).concat(".");
        let error = cli_failure("DOWNLOAD_FAILED", message);
        Some(error_state(&error, 0))
    } else {
        None
    }
}

/// Whether a setup event says the CLI waits on a native permission prompt.
pub open spec fn awaits_permission(state: Option<String>) -> bool {
    state matches Some(s) && s@ == "permission"@
}

/// The activity text of a setup event: its `detail` when present (the more
/// specific of the two), else its `activity`.
pub open spec fn event_activity(event: RuntimeSetupEvent) -> Option<Seq<char>> {
    match event.detail {
        Some(d) => Some(d@),
        None => opt_view(event.activity),
    }
}

/// The progress screen for one event of `runtime ensure`.
pub open spec fn event_view(event: RuntimeSetupEvent) -> SetupView {
    preparing_view(
        phase_index_spec(event.stage@),
        event_activity(event),
        opt_view(event.status),
        opt_view(event.substage),
        awaits_permission(event.state),
    )
}

/// The screen shown for one progress event of `runtime ensure`.
pub fn progress_state_for_event(event: RuntimeSetupEvent) -> (r: SetupState)
    ensures
        r@ == event_view(event),
{
    let index = phase_index(event.stage.as_str());
    let awaiting = match &event.state {
        Some(s) => str_equals(s.as_str(), "permission"),
        None => false,
    };
    let activity = match event.detail {
        Some(d) => Some(d),
        None => event.activity,
    };
    preparing_state(index, activity, event.status, event.substage, awaiting)
}

/// The message shown when setup finished but the runtime is still not ready.
pub open spec fn still_not_ready_message(state: Seq<char>) -> Seq<char> {
    "Podman setup finished, but the runtime is still not ready ("@ + state + ")."@
}

/// The screen once `runtime ensure` has finished: ready when the runtime is
/// ready; an error in the phase after the last one when it finished but the
/// runtime still is not ready; an error in the environment phase when it
/// failed.
pub open spec fn setup_result_view(result: Result<RuntimeStatus, CliError>) -> SetupView {
    match result {
        Ok(status) => if status.ready {
            ready_view()
        } else {
            let message = still_not_ready_message(status.state@);
            error_screen_view(
                cli_body_copy("RUNTIME_SETUP_FAILED"@, message),
                cli_error_text("RUNTIME_SETUP_FAILED"@, message),
                PHASE_COUNT as int,
            )
        },
        Err(error) => error_view(error, 1),
    }
}

pub fn setup_result_state(result: &Result<RuntimeStatus, CliError>) -> (r: SetupState)
    ensures
        r@ == setup_result_view(*result),
{
    match result {
        Ok(status) => {
            if status.ready {
                ready_state()
            } else {
                let message = String::from_str(
                    "Podman setup finished, but the runtime is still not ready (",
                ).concat(status.state.as_str()).concat(").");
                let error = cli_failure("RUNTIME_SETUP_FAILED", message);
                let r = error_state(&error, PHASE_COUNT);
                assert(r@ =~~= setup_result_view(*result));
                r
            }
        },
        Err(error) => {
            let reached = match phase_index("environment") {
                Some(i) => i,
                None => PHASE_COUNT - 1,
            };
            proof {
                reveal_strlit("environment");
                reveal_strlit("software");
                assert("environment"@[0] != "software"@[0]);
            }
            error_state(error, reached)
        },
    }
}

/// The first screen after checking the runtime, and whether the onboarding
/// window must be revealed for it.
pub struct OnboardingScreen {
    pub state: SetupState,
    pub show_onboarding: bool,
}

/// What the first check of the runtime leads to: a ready runtime shows the
/// ready screen and leaves onboarding hidden; a runtime that is not ready
/// shows the welcome screen, and a failed check its error screen, and both
/// reveal onboarding.
pub open spec fn initial_view(status: Result<RuntimeStatus, CliError>) -> (SetupView, bool) {
    match status {
        Ok(s) => if s.ready {
            (ready_view(), false)
        } else {
            (welcome_view(), true)
        },
        Err(e) => (error_view(e, 0), true),
    }
}

pub fn initial_screen(status: &Result<RuntimeStatus, CliError>) -> (r: OnboardingScreen)
    ensures
        (r.state@, r.show_onboarding) == initial_view(*status),
{
    match status {
        Ok(s) => if s.ready {
            OnboardingScreen { state: ready_state(), show_onboarding: false }
        } else {
            OnboardingScreen { state: welcome_state(), show_onboarding: true }
        },
        Err(e) => OnboardingScreen { state: error_state(e, 0), show_onboarding: true },
    }
}

/// Only a restart being required, an unsupported computer, a CLI that is
/// too old, or a contract or schema mismatch end setup for good; every other
/// failure can be retried.
pub proof fn only_these_failures_are_terminal(error: CliError)
    ensures
        !error_copy(error).2 <==> match error {
            CliError::Cli(body) => body.code@ == "RESTART_REQUIRED"@ || body.code@ == "UNSUPPORTED"@,
            CliError::VersionTooOld { .. } | CliError::ContractMismatch { .. }
            | CliError::RuntimeSchemaMismatch { .. } => true,
            _ => false,
        },
{
    reveal_strlit("RESTART_REQUIRED");
    reveal_strlit("PERMISSION_DENIED");
    reveal_strlit("DOWNLOAD_FAILED");
    reveal_strlit("UNSUPPORTED");
    assert("UNSUPPORTED"@[0] != "RESTART_REQUIRED"@[0]);
    assert("UNSUPPORTED"@[0] != "PERMISSION_DENIED"@[0]);
    assert("UNSUPPORTED"@[0] != "DOWNLOAD_FAILED"@[0]);
}

/// While the CLI waits on a permission prompt, or before the phase is
/// known, the progress bar is indeterminate; progress is shown exactly when
/// the phase is known.
pub proof fn permission_waits_are_indeterminate(
    phase: Option<usize>,
    activity: Option<Seq<char>>,
    status: Option<Seq<char>>,
    substage: Option<Seq<char>>,
    awaiting_permission: bool,
)
    ensures
        awaiting_permission ==> preparing_view(
            phase,
            activity,
            status,
            substage,
            awaiting_permission,
        ).indeterminate,
        phase is None ==> preparing_view(
            phase,
            activity,
            status,
            substage,
            awaiting_permission,
        ).indeterminate,
        preparing_view(phase, activity, status, substage, awaiting_permission).progress is Some
            <==> phase is Some,
{
}

/// The first check reveals the onboarding window exactly when the runtime
/// is not confirmed ready; when it is, the screen lets the dashboard open.
pub proof fn onboarding_is_revealed_only_when_needed(status: Result<RuntimeStatus, CliError>)
    ensures
        initial_view(status).1 <==> !(status matches Ok(s) && s.ready),
        !initial_view(status).1 ==> initial_view(status).0.can_open,
{
}

/// Each kind of screen offers its own next step only: the welcome screen
/// can start and nothing else, the ready screen can open at full progress,
/// an error screen can never start or open, a progress screen offers
/// nothing.
pub proof fn each_screen_offers_its_own_step(
    error: CliError,
    reached: int,
    phase: Option<usize>,
    activity: Option<Seq<char>>,
    status: Option<Seq<char>>,
    substage: Option<Seq<char>>,
    awaiting_permission: bool,
)
    ensures
        welcome_view().can_start && !welcome_view().can_retry && !welcome_view().can_open,
        ready_view().can_open && !ready_view().can_start && !ready_view().can_retry
            && ready_view().progress == Some(ProgressMark::Complete),
        !error_view(error, reached).can_start && !error_view(error, reached).can_open,
        ({
            let p = preparing_view(phase, activity, status, substage, awaiting_permission);
            !p.can_start && !p.can_retry && !p.can_open && p.primary_action is None
                && p.secondary_action is None
        }),
{
}

/// A progress event's screen shows its `detail`, else its `activity`, else
/// the phase's own label, and offers no action. It shows the CLI waiting on
/// the user exactly when its state is `permission`; its bar is
/// indeterminate exactly then or when its stage is neither `software` nor
/// `environment`, and otherwise stands in the first phase for `software`
/// and the second for `environment`. The event's own status and substage
/// are shown as they came.
pub proof fn only_permission_prompts_await_the_user(event: RuntimeSetupEvent)
    ensures
        event_view(event).stage == "preparing"@,
        event_view(event).awaiting_permission <==> opt_view(event.state) == Some("permission"@),
        event_view(event).indeterminate <==> (opt_view(event.state) == Some("permission"@) || !(
        event.stage@ == "software"@ || event.stage@ == "environment"@)),
        event.stage@ == "software"@ ==> event_view(event).progress == Some(ProgressMark::Phase(0)),
        event.stage@ == "environment"@ ==> event_view(event).progress == Some(
            ProgressMark::Phase(1),
        ),
        !(event.stage@ == "software"@ || event.stage@ == "environment"@) ==> event_view(
            event,
        ).progress is None,
        event_view(event).status == opt_view(event.status),
        event_view(event).substage == opt_view(event.substage),
        event.detail matches Some(d) ==> event_view(event).activity == Some(d@),
        event.detail is None ==> (event.activity matches Some(a) ==> event_view(event).activity
            == Some(a@)),
        event.detail is None && event.activity is None && event.stage@ == "software"@
            ==> event_view(event).activity == Some("Installing Podman"@),
        event.detail is None && event.activity is None && event.stage@ == "environment"@
            ==> event_view(event).activity == Some("Preparing a secure space"@),
        !event_view(event).can_start && !event_view(event).can_retry && !event_view(event).can_open,
{
    reveal_strlit("software");
    reveal_strlit("environment");
    assert("software"@[0] != "environment"@[0]);
}

/// A first check that finds the runtime not ready reveals the welcome
/// screen, which can start setup; one that finds it ready shows the ready
/// screen without revealing onboarding. When the first check fails,
/// onboarding is revealed on an error screen that blames the first phase
/// and has passed none: software has the issue and the environment is still
/// waiting. When setup itself
/// fails, software has passed and the environment has the issue. When setup
/// finishes with the runtime still not ready, both phases have passed and
/// the screen offers retry; when it is ready, the dashboard may open.
pub proof fn failures_blame_the_phase_they_reached(error: CliError, status: RuntimeStatus)
    ensures
        initial_view(Err(error)).1,
        initial_view(Err(error)).0.stage == "error"@,
        !status.ready ==> initial_view(Ok(status)).0.stage == "welcome"@ && initial_view(
            Ok(status),
        ).0.can_start && initial_view(Ok(status)).1,
        status.ready ==> initial_view(Ok(status)).0.stage == "ready"@ && !initial_view(
            Ok(status),
        ).1,
        initial_view(Err(error)).0.diagnostics matches Some(d) && d.len() == 2 && d[0].id
            == "software"@ && d[0].status == "issue"@ && d[1].id == "environment"@ && d[1].status
            == "waiting"@,
        setup_result_view(Err(error)).stage == "error"@,
        !setup_result_view(Err(error)).can_open,
        setup_result_view(Err(error)).diagnostics matches Some(d) && d.len() == 2 && d[0].id
            == "software"@ && d[0].status == "pass"@ && d[1].id == "environment"@ && d[1].status
            == "issue"@,
        !status.ready ==> setup_result_view(Ok(status)).stage == "error"@ && setup_result_view(
            Ok(status),
        ).can_retry && !setup_result_view(Ok(status)).can_open && (setup_result_view(
            Ok(status),
        ).diagnostics matches Some(d) && d.len() == 2 && d[0].status == "pass"@ && d[1].status
            == "pass"@),
        status.ready ==> setup_result_view(Ok(status)).can_open && setup_result_view(
            Ok(status),
        ).stage == "ready"@,
{
    reveal_strlit("RUNTIME_SETUP_FAILED");
    reveal_strlit("RESTART_REQUIRED");
    reveal_strlit("UNSUPPORTED");
    assert("RUNTIME_SETUP_FAILED"@[1] != "RESTART_REQUIRED"@[1]);
    assert("RUNTIME_SETUP_FAILED"@[0] != "UNSUPPORTED"@[0]);
}

} // verus!
