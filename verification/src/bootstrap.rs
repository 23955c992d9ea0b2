//! The onboarding window's command surface: who may call it, which actions
//! the last pushed screen allows, and whether setup is already running.

use vstd::prelude::*;
use vstd::string::*;
use crate::cli_error::CliError;
use crate::line_buffer::string_views;
use crate::setup::{error_view, preparing_view, ready_view, welcome_view, SetupState, SetupView};
use crate::text::str_equals;

verus! {

/// Every failure mode of the onboarding commands themselves.
#[derive(Debug)]
pub enum BootstrapError {
    /// The caller is not the onboarding window showing the app's own content.
    OriginDenied,
    Cli(CliError),
    /// The requested action was not offered by the current screen, or the
    /// dashboard was requested before setup was done.
    ActionDenied,
    WindowMissing,
    StateLockPoisoned,
    StateDeliveryFailed,
}

impl From<CliError> for BootstrapError {
    fn from(error: CliError) -> (r: BootstrapError) {
        BootstrapError::Cli(error)
    }
}

impl vstd::std_specs::convert::FromSpecImpl<CliError> for BootstrapError {
    open spec fn obeys_from_spec() -> bool {
        true
    }

    open spec fn from_spec(v: CliError) -> BootstrapError {
        BootstrapError::Cli(v)
    }
}

/// The scheme and host of the URL a window has loaded.
pub struct WindowUrl {
    pub scheme: String,
    pub host: Option<String>,
}

/// The app's own served content: `tauri://localhost`, or `http`/`https`
/// on `tauri.localhost`.
pub open spec fn is_local_setup_url_spec(scheme: Seq<char>, host: Option<Seq<char>>) -> bool {
    ||| scheme == "tauri"@ && host == Some("localhost"@)
    ||| scheme == "http"@ && host == Some("tauri.localhost"@)
    ||| scheme == "https"@ && host == Some("tauri.localhost"@)
}

pub open spec fn host_view(url: &WindowUrl) -> Option<Seq<char>> {
    match url.host {
        Some(h) => Some(h@),
        None => None,
    }
}

/// Whether `url` is the app's own served content, never remote content.
pub fn is_local_setup_url(url: &WindowUrl) -> (r: bool)
    ensures
        r == is_local_setup_url_spec(url.scheme@, host_view(url)),
{
    let host_is = |expected: &str| -> (b: bool)
        ensures
            b == (host_view(url) == Some(expected@)),
        {
            match &url.host {
                Some(h) => str_equals(h.as_str(), expected),
                None => false,
            }
        };
    (str_equals(url.scheme.as_str(), "tauri") && host_is("localhost")) || (str_equals(
        url.scheme.as_str(),
        "http",
    ) && host_is("tauri.localhost")) || (str_equals(url.scheme.as_str(), "https") && host_is(
        "tauri.localhost",
    ))
}

/// Only the window labelled `onboarding`, showing the app's own content,
/// may use the onboarding commands; a window whose URL cannot be read may
/// not.
pub fn authorize_onboarding(label: &str, url: Option<&WindowUrl>) -> (r: Result<(), BootstrapError>)
    ensures
        r is Ok <==> label@ == "onboarding"@ && (url matches Some(u) && is_local_setup_url_spec(
            u.scheme@,
            host_view(u),
        )),
        r matches Err(e) ==> e is OriginDenied,
{
    let url = match url {
        Some(u) => u,
        None => return Err(BootstrapError::OriginDenied),
    };
    if !str_equals(label, "onboarding") || !is_local_setup_url(url) {
        return Err(BootstrapError::OriginDenied);
    }
    Ok(())
}

/// A recovery action that the onboarding window may run.
#[derive(Debug, Clone, Copy, PartialEq, Eq)]
pub enum RecoveryAction {
    Quit,
}

/// What the onboarding commands remember between calls.
pub struct BootstrapView {
    pub setup_running: bool,
    pub ready: bool,
    pub offered_actions: Seq<Seq<char>>,
}

/// The actions a screen offers: its primary action, then its secondary one
/// unless that is the same.
pub open spec fn offered_by(screen: SetupView) -> Seq<Seq<char>> {
    let first = match screen.primary_action {
        Some(a) => seq![a],
        None => Seq::empty(),
    };
    match screen.secondary_action {
        Some(b) => if first.contains(b) {
            first
        } else {
            first.push(b)
        },
        None => first,
    }
}

/// The state the onboarding commands share: whether `runtime ensure` is
/// running, whether the last pushed screen let the dashboard open, and the
/// actions that screen offered (each once).
pub struct BootstrapState {
    setup_running: bool,
    ready: bool,
    offered_actions: Vec<String>,
}

impl BootstrapState {
    /// No action is remembered twice.
    #[verifier::type_invariant]
    spec fn actions_distinct(&self) -> bool {
        string_views(self.offered_actions@).no_duplicates()
    }
}

impl View for BootstrapState {
    type V = BootstrapView;

    closed spec fn view(&self) -> BootstrapView {
        BootstrapView {
            setup_running: self.setup_running,
            ready: self.ready,
            offered_actions: string_views(self.offered_actions@),
        }
    }
}

/// What `run_action` decides for `action` in state `state`.
pub open spec fn run_action_spec(state: BootstrapView, action: Seq<char>) -> Option<RecoveryAction> {
    if state.offered_actions.contains(action) && action == "quit"@ {
        Some(RecoveryAction::Quit)
    } else {
        None
    }
}

/// The state after pushing `screen`.
pub open spec fn after_screen(state: BootstrapView, screen: SetupView) -> BootstrapView {
    BootstrapView {
        setup_running: state.setup_running,
        ready: screen.can_open,
        offered_actions: offered_by(screen),
    }
}

/// Whether a request to start setup goes ahead, and the state after it.
pub open spec fn begin_setup_spec(state: BootstrapView) -> (bool, BootstrapView) {
    (!state.setup_running, BootstrapView { setup_running: true, ..state })
}

/// The state once setup has ended.
pub open spec fn finish_setup_spec(state: BootstrapView) -> BootstrapView {
    BootstrapView { setup_running: false, ..state }
}

impl BootstrapState {
    pub fn new() -> (r: BootstrapState)
        ensures
            r@ == (BootstrapView {
                setup_running: false,
                ready: false,
                offered_actions: Seq::empty(),
            }),
    {
        let offered_actions: Vec<String> = Vec::new();
        assert(string_views(offered_actions@) =~= Seq::empty());
        BootstrapState { setup_running: false, ready: false, offered_actions }
    }

    /// Remembers what `screen`, just pushed to the window, offers.
    pub fn record_screen(&mut self, screen: &SetupState)
        ensures
            final(self)@ == after_screen(old(self)@, screen@),
    {
        proof {
            use_type_invariant(&*self);
        }
        self.ready = screen.can_open;
        let mut actions: Vec<String> = Vec::new();
        if let Some(a) = &screen.primary_action {
            actions.push(a.clone());
        }
        if let Some(b) = &screen.secondary_action {
            let duplicate = match &screen.primary_action {
                Some(a) => *a == *b,
                None => false,
            };
            proof {
                if let Some(a) = &screen.primary_action {
                    assert(string_views(actions@) =~= seq![a@]);
                    assert(seq![a@].contains(b@) <==> a@ == b@) by {
                        if seq![a@].contains(b@) {
                            let k = choose|k: int| 0 <= k < 1 && seq![a@][k] == b@;
                            assert(k == 0);
                        }
                        if a@ == b@ {
                            assert(seq![a@][0] == b@);
                        }
                    }
                } else {
                    assert(string_views(actions@) =~= Seq::<Seq<char>>::empty());
                }
            }
            if !duplicate {
                actions.push(b.clone());
            }
        }
        proof {
            assert(string_views(actions@) =~= offered_by(screen@));
            screens_offer_each_action_once(screen@);
        }
        self.offered_actions = actions;
    }

    /// Marks setup as running; `false` when it already was, in which case
    /// the request is to be ignored.
    pub fn begin_setup(&mut self) -> (started: bool)
        ensures
            (started, final(self)@) == begin_setup_spec(old(self)@),
    {
        proof {
            use_type_invariant(&*self);
        }
        let was_running = self.setup_running;
        self.setup_running = true;
        !was_running
    }

    /// Marks setup as no longer running.
    pub fn finish_setup(&mut self)
        ensures
            final(self)@ == finish_setup_spec(old(self)@),
    {
        proof {
            use_type_invariant(&*self);
        }
        self.setup_running = false;
    }

    /// The dashboard may only be opened once the last screen allowed it.
    pub fn open_dashboard(&self) -> (r: Result<(), BootstrapError>)
        ensures
            r is Ok <==> self@.ready,
            r matches Err(e) ==> e is ActionDenied,
    {
        if self.ready {
            Ok(())
        } else {
            Err(BootstrapError::ActionDenied)
        }
    }

    /// A recovery action runs only when the last screen offered it; of the
    /// offered actions only `quit` is run here (`retry` is the setup command
    /// itself).
    pub fn run_action(&self, action: &str) -> (r: Result<RecoveryAction, BootstrapError>)
        ensures
            match run_action_spec(self@, action@) {
                Some(a) => r == Ok::<RecoveryAction, BootstrapError>(a),
                None => r matches Err(e) && e is ActionDenied,
            },
    {
        let mut offered = false;
        let mut i: usize = 0;
        while i < self.offered_actions.len()
            invariant
                i <= self.offered_actions@.len(),
                offered <==> exists|k: int| 0 <= k < i && self.offered_actions@[k]@ == action@,
            decreases self.offered_actions@.len() - i,
        {
            if str_equals(self.offered_actions[i].as_str(), action) {
                offered = true;
            }
            i = i + 1;
        }
        proof {
            let views = string_views(self.offered_actions@);
            if offered {
                let k = choose|k: int| 0 <= k < i && self.offered_actions@[k]@ == action@;
                assert(views[k] == action@);
            }
            if views.contains(action@) {
                let k = choose|k: int| 0 <= k < views.len() && views[k] == action@;
                assert(self.offered_actions@[k]@ == action@);
            }
        }
        if !offered {
            return Err(BootstrapError::ActionDenied);
        }
        if str_equals(action, "quit") {
            Ok(RecoveryAction::Quit)
        } else {
            Err(BootstrapError::ActionDenied)
        }
    }
}

impl Default for BootstrapState {
    fn default() -> (r: BootstrapState)
        ensures
            r@ == (BootstrapView {
                setup_running: false,
                ready: false,
                offered_actions: Seq::empty(),
            }),
    {
        BootstrapState::new()
    }
}

proof fn lemma_offered_by(screen: SetupView, action: Seq<char>)
    ensures
        offered_by(screen).contains(action) <==> (screen.primary_action == Some(action)
            || screen.secondary_action == Some(action)),
{
    let first = match screen.primary_action {
        Some(a) => seq![a],
        None => Seq::<Seq<char>>::empty(),
    };
    assert(first.contains(action) <==> screen.primary_action == Some(action)) by {
        if first.contains(action) {
            let k = choose|k: int| 0 <= k < first.len() && first[k] == action;
            assert(first[k] == first[0]);
        }
        if screen.primary_action == Some(action) {
            assert(first[0] == action);
        }
    }
    if let Some(b) = screen.secondary_action {
        if !first.contains(b) {
            let pushed = first.push(b);
            assert(pushed.contains(action) <==> first.contains(action) || b == action) by {
                if pushed.contains(action) {
                    let k = choose|k: int| 0 <= k < pushed.len() && pushed[k] == action;
                    if k < first.len() {
                        assert(first[k] == action);
                    }
                }
                if first.contains(action) {
                    let k = choose|k: int| 0 <= k < first.len() && first[k] == action;
                    assert(pushed[k] == action);
                }
                if b == action {
                    assert(pushed[first.len() as int] == action);
                }
            }
        }
    }
}

/// A screen offers each of its actions once.
pub proof fn screens_offer_each_action_once(screen: SetupView)
    ensures
        offered_by(screen).no_duplicates(),
{
    let first = match screen.primary_action {
        Some(a) => seq![a],
        None => Seq::<Seq<char>>::empty(),
    };
    assert(first.no_duplicates());
    if let Some(b) = screen.secondary_action {
        if !first.contains(b) {
            let pushed = first.push(b);
            assert forall|i: int, j: int| 0 <= i < pushed.len() && 0 <= j < pushed.len() && i != j
                implies pushed[i] != pushed[j] by {
                if i < first.len() && j < first.len() {
                } else if i < first.len() {
                    assert(first[i] == pushed[i]);
                    assert(first.contains(pushed[i]));
                } else if j < first.len() {
                    assert(first[j] == pushed[j]);
                    assert(first.contains(pushed[j]));
                }
            }
        }
    }
}

/// After a screen is pushed, a recovery action runs exactly when it is
/// `quit` and the screen offered it (as primary or secondary action), and
/// the dashboard opens exactly when the screen allowed it; whatever an
/// earlier screen offered no longer counts.
pub proof fn actions_follow_the_last_screen(state: BootstrapView, screen: SetupView, action: Seq<char>)
    ensures
        run_action_spec(after_screen(state, screen), action) is Some <==> action == "quit"@ && (
        screen.primary_action == Some(action) || screen.secondary_action == Some(action)),
        after_screen(state, screen).ready == screen.can_open,
{
    lemma_offered_by(screen, action);
}

/// An error screen always lets the user quit, offers retry exactly when it
/// is retryable, and never opens the dashboard.
pub proof fn error_screens_always_offer_quit(state: BootstrapView, error: CliError, reached: int)
    ensures
        run_action_spec(after_screen(state, error_view(error, reached)), "quit"@) == Some(
            RecoveryAction::Quit,
        ),
        offered_by(error_view(error, reached)).contains("retry"@) <==> error_view(
            error,
            reached,
        ).can_retry,
        !after_screen(state, error_view(error, reached)).ready,
{
    let v = error_view(error, reached);
    lemma_offered_by(v, "quit"@);
    lemma_offered_by(v, "retry"@);
    reveal_strlit("quit");
    reveal_strlit("retry");
    assert("quit"@[0] != "retry"@[0]);
}

/// The welcome and progress screens offer no recovery action and keep the
/// dashboard closed; only the ready screen opens it, and it offers no
/// recovery action either.
pub proof fn only_the_ready_screen_opens_the_dashboard(
    state: BootstrapView,
    action: Seq<char>,
    phase: Option<usize>,
    activity: Option<Seq<char>>,
    status: Option<Seq<char>>,
    substage: Option<Seq<char>>,
    awaiting_permission: bool,
)
    ensures
        run_action_spec(after_screen(state, welcome_view()), action) is None,
        !after_screen(state, welcome_view()).ready,
        run_action_spec(
            after_screen(state, preparing_view(phase, activity, status, substage, awaiting_permission)),
            action,
        ) is None,
        !after_screen(
            state,
            preparing_view(phase, activity, status, substage, awaiting_permission),
        ).ready,
        run_action_spec(after_screen(state, ready_view()), action) is None,
        after_screen(state, ready_view()).ready,
{
    lemma_offered_by(welcome_view(), action);
    lemma_offered_by(preparing_view(phase, activity, status, substage, awaiting_permission), action);
    lemma_offered_by(ready_view(), action);
}

/// A second request to start setup while one runs is refused, and once
/// setup has finished the next request goes ahead; neither touches what the
/// last screen offered.
pub proof fn setup_is_not_reentrant(state: BootstrapView)
    ensures
        !begin_setup_spec(begin_setup_spec(state).1).0,
        begin_setup_spec(finish_setup_spec(begin_setup_spec(state).1)).0,
        begin_setup_spec(state).1.offered_actions == state.offered_actions,
        finish_setup_spec(state).offered_actions == state.offered_actions,
        begin_setup_spec(state).1.ready == state.ready && finish_setup_spec(state).ready
            == state.ready,
{
}

} // verus!
