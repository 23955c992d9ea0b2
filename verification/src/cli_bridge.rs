//! What the app asks of the `omnideck` CLI and how it reads the answers:
//! the arguments and timeout of each command, and the checks and outcomes
//! applied to its JSON and NDJSON replies.

use vstd::prelude::*;
use vstd::string::*;
use crate::cli_error::{CliError, CliErrorBody};
use crate::json::{
    body_matches, decode_error_body, decode_setup_event, decode_stream_event, error_body_problem,
    event_decodes, event_matches, json_member, json_member_of, json_member_text,
    json_member_text_of, member_str, member_text, opt_string_view, read_member_str,
    read_member_text, required_str, stream_event_problem, JsonMember, MemberView,
};
use crate::model::RuntimeSetupEvent;
use crate::line_buffer::string_views;
use crate::model::{NewDeckOptions, RemoveOptions, RuntimeStatus, VersionInfo};
use crate::semver::{meets_minimum, meets_minimum_version};
use crate::setup::{phase_index, phase_index_spec};
use crate::text::{decimal, decimal_string, decode_utf8_lossy, lossy_text, str_equals, trim_text, trimmed};

verus! {

/// The `jsonContract` this build was written against.
pub const EXPECTED_JSON_CONTRACT: u64 = 3;

/// The runtime status `schemaVersion` this build was written against.
pub const EXPECTED_RUNTIME_SCHEMA: u32 = 4;

/// The lowest CLI release this build accepts (a floor, not an exact match).
pub const MINIMUM_CLI_VERSION: &'static str = "v0.11.0-alpha.2";

/// The name of the bundled CLI sidecar.
pub const CLI_SIDECAR: &'static str = "omnideck";

/// How long an operation may run: short for commands that only inspect,
/// long for those that may pull images or install software.
#[derive(Debug, Clone, Copy, PartialEq, Eq)]
pub enum OperationTimeout {
    Inspection,
    Mutation,
}

impl OperationTimeout {
    pub open spec fn seconds_spec(&self) -> u64 {
        match self {
            OperationTimeout::Inspection => 15,
            OperationTimeout::Mutation => 1200,
        }
    }

    /// The timeout in seconds.
    pub fn seconds(&self) -> (r: u64)
        ensures
            r == self.seconds_spec(),
    {
        match self {
            OperationTimeout::Inspection => 15,
            OperationTimeout::Mutation => 20 * 60,
        }
    }
}

/// How a command's stdout is read.
#[derive(Debug, Clone, Copy, PartialEq, Eq)]
pub enum ReplyKind {
    /// One JSON document.
    Document,
    /// `runtime ensure`: a bare status, or NDJSON setup progress.
    RuntimeSetup,
    /// `add`/`update`/`remove`: NDJSON progress ending in done or error.
    Progress,
}

/// A CLI command with its parameters.
pub enum CliCommand<'a> {
    Version,
    RuntimeStatus,
    RuntimeEnsure,
    List,
    Status { name: &'a str },
    Start { name: &'a str },
    Stop { name: &'a str },
    Restart { name: &'a str },
    Doctor { name: &'a str },
    Config { name: &'a str },
    Logs { name: &'a str, tail: u32 },
    SuggestDefaults,
    Add { opts: NewDeckOptions<'a> },
    Update { name: &'a str },
    Remove { name: &'a str, opts: RemoveOptions },
}

/// How to run one command: its arguments, timeout, reply kind, and the name
/// of the event that forwards its progress lines.
pub struct CliInvocation {
    pub args: Vec<String>,
    pub timeout: OperationTimeout,
    pub reply: ReplyKind,
    pub progress_event: Option<String>,
}

pub open spec fn optional_pair(flag: Seq<char>, value: Option<&str>) -> Seq<Seq<char>> {
    match value {
        Some(v) => seq![flag, v@],
        None => Seq::empty(),
    }
}

impl<'a> CliCommand<'a> {
    /// The command's arguments, `--json` included.
    pub open spec fn args_spec(&self) -> Seq<Seq<char>> {
        match self {
            CliCommand::Version => seq!["--version"@, "--json"@],
            CliCommand::RuntimeStatus => seq!["runtime"@, "status"@, "--json"@],
            CliCommand::RuntimeEnsure => seq!["runtime"@, "ensure"@, "--json"@],
            CliCommand::List => seq!["list"@, "--json"@],
            CliCommand::Status { name } => seq!["status"@, "--name"@, name@, "--json"@],
            CliCommand::Start { name } => seq!["start"@, "--name"@, name@, "--json"@],
            CliCommand::Stop { name } => seq!["stop"@, "--name"@, name@, "--json"@],
            CliCommand::Restart { name } => seq!["restart"@, "--name"@, name@, "--json"@],
            CliCommand::Doctor { name } => seq!["doctor"@, "--name"@, name@, "--json"@],
            CliCommand::Config { name } => seq!["config"@, "show"@, "--name"@, name@, "--json"@],
            CliCommand::Logs { name, tail } => seq![
                "logs"@,
                "--name"@,
                name@,
                "--tail"@,
                decimal(*tail as nat),
                "--json"@,
            ],
            CliCommand::SuggestDefaults => seq!["add"@, "--suggest-defaults"@, "--json"@],
            CliCommand::Add { opts } => seq![
                "add"@,
                "--name"@,
                opts.name@,
                "--port"@,
                opts.port@,
                "--json"@,
            ] + optional_pair("--image"@, opts.image) + optional_pair("--memory"@, opts.memory),
            CliCommand::Update { name } => seq!["update"@, "--name"@, name@, "--json"@],
            CliCommand::Remove { name, opts } => seq!["remove"@, name@, "--yes"@, "--json"@] + if opts.keep_volumes {
                seq!["--keep-volumes"@]
            } else if opts.backup {
                seq!["--delete-volumes"@, "--backup"@]
            } else {
                seq!["--delete-volumes"@, "--no-backup"@]
            },
        }
    }

    pub open spec fn timeout_spec(&self) -> OperationTimeout {
        match self {
            CliCommand::RuntimeEnsure | CliCommand::Add { .. } | CliCommand::Update { .. }
            | CliCommand::Remove { .. } => OperationTimeout::Mutation,
            _ => OperationTimeout::Inspection,
        }
    }

    pub open spec fn reply_spec(&self) -> ReplyKind {
        match self {
            CliCommand::RuntimeEnsure => ReplyKind::RuntimeSetup,
            CliCommand::Add { .. } | CliCommand::Update { .. } | CliCommand::Remove {
                ..
            } => ReplyKind::Progress,
            _ => ReplyKind::Document,
        }
    }

    pub open spec fn progress_event_spec(&self) -> Option<Seq<char>> {
        match self {
            CliCommand::Add { .. } => Some("add-progress"@),
            CliCommand::Update { .. } => Some("update-progress"@),
            CliCommand::Remove { .. } => Some("remove-progress"@),
            _ => None,
        }
    }

    /// How to run this command.
    pub fn invocation(&self) -> (r: CliInvocation)
        ensures
            string_views(r.args@) == self.args_spec(),
            r.timeout == self.timeout_spec(),
            r.reply == self.reply_spec(),
            match (r.progress_event, self.progress_event_spec()) {
                (Some(e), Some(s)) => e@ == s,
                (None, None) => true,
                _ => false,
            },
    {
        let mut args: Vec<String> = Vec::new();
        match self {
            CliCommand::Version => {
                push_arg(&mut args, "--version");
            },
            CliCommand::RuntimeStatus => {
                push_arg(&mut args, "runtime");
                push_arg(&mut args, "status");
            },
            CliCommand::RuntimeEnsure => {
                push_arg(&mut args, "runtime");
                push_arg(&mut args, "ensure");
            },
            CliCommand::List => {
                push_arg(&mut args, "list");
            },
            CliCommand::Status { name } => {
                push_named(&mut args, "status", name);
            },
            CliCommand::Start { name } => {
                push_named(&mut args, "start", name);
            },
            CliCommand::Stop { name } => {
                push_named(&mut args, "stop", name);
            },
            CliCommand::Restart { name } => {
                push_named(&mut args, "restart", name);
            },
            CliCommand::Doctor { name } => {
                push_named(&mut args, "doctor", name);
            },
            CliCommand::Config { name } => {
                push_arg(&mut args, "config");
                push_named(&mut args, "show", name);
            },
            CliCommand::Logs { name, tail } => {
                push_named(&mut args, "logs", name);
                push_arg(&mut args, "--tail");
                let tail_arg = decimal_string(*tail as u64);
                push_arg(&mut args, tail_arg.as_str());
            },
            CliCommand::SuggestDefaults => {
                push_arg(&mut args, "add");
                push_arg(&mut args, "--suggest-defaults");
            },
            CliCommand::Add { opts } => {
                push_named(&mut args, "add", opts.name);
                push_arg(&mut args, "--port");
                push_arg(&mut args, opts.port);
            },
            CliCommand::Update { name } => {
                push_named(&mut args, "update", name);
            },
            CliCommand::Remove { name, .. } => {
                push_arg(&mut args, "remove");
                push_arg(&mut args, name);
                push_arg(&mut args, "--yes");
            },
        }
        push_arg(&mut args, "--json");
        match self {
            CliCommand::Add { opts } => {
                if let Some(image) = opts.image {
                    push_arg(&mut args, "--image");
                    push_arg(&mut args, image);
                }
                if let Some(memory) = opts.memory {
                    push_arg(&mut args, "--memory");
                    push_arg(&mut args, memory);
                }
            },
            CliCommand::Remove { opts, .. } => {
                if opts.keep_volumes {
                    push_arg(&mut args, "--keep-volumes");
                } else {
                    push_arg(&mut args, "--delete-volumes");
                    push_arg(
                        &mut args,
                        if opts.backup {
                            "--backup"
                        } else {
                            "--no-backup"
                        },
                    );
                }
            },
            _ => {},
        }
        assert(string_views(args@) =~= self.args_spec());
        let (timeout, reply, progress_event) = match self {
            CliCommand::RuntimeEnsure => (OperationTimeout::Mutation, ReplyKind::RuntimeSetup, None),
            CliCommand::Add { .. } => (
                OperationTimeout::Mutation,
                ReplyKind::Progress,
                Some(String::from_str("add-progress")),
            ),
            CliCommand::Update { .. } => (
                OperationTimeout::Mutation,
                ReplyKind::Progress,
                Some(String::from_str("update-progress")),
            ),
            CliCommand::Remove { .. } => (
                OperationTimeout::Mutation,
                ReplyKind::Progress,
                Some(String::from_str("remove-progress")),
            ),
            _ => (OperationTimeout::Inspection, ReplyKind::Document, None),
        };
        CliInvocation { args, timeout, reply, progress_event }
    }
}

fn push_arg(args: &mut Vec<String>, arg: &str)
    ensures
        string_views(final(args)@) == string_views(old(args)@).push(arg@),
{
    args.push(String::from_str(arg));
    assert(string_views(args@) =~= string_views(old(args)@).push(arg@));
}

fn push_named(args: &mut Vec<String>, command: &str, name: &str)
    ensures
        string_views(final(args)@) == string_views(old(args)@) + seq![command@, "--name"@, name@],
{
    push_arg(args, command);
    push_arg(args, "--name");
    push_arg(args, name);
    assert(string_views(args@) =~= string_views(old(args)@) + seq![command@, "--name"@, name@]);
}

/// The text of a single-document reply: stdout decoded lossily and trimmed;
/// `NoOutput` when nothing is left.
pub fn json_reply_text(stdout: &[u8]) -> (r: Result<String, CliError>)
    ensures
        match r {
            Ok(text) => text@ == trimmed(lossy_text(stdout@)) && text@.len() > 0,
            Err(e) => e is NoOutput && trimmed(lossy_text(stdout@)).len() == 0,
        },
{
    let decoded = decode_utf8_lossy(stdout);
    let text = trim_text(decoded.as_str());
    if text.as_str().unicode_len() == 0 {
        Err(CliError::NoOutput)
    } else {
        Ok(text)
    }
}

/// The text a single-document reply is read from: stdout decoded lossily
/// and trimmed.
pub open spec fn reply_text(stdout: Seq<u8>) -> Seq<char> {
    trimmed(lossy_text(stdout))
}

/// A single JSON document, as far as the reply logic reads it.
pub enum JsonDocument {
    /// A document to decode into its expected shape; its text.
    Document(String),
    /// A top-level object with an `error` member: the member's JSON text,
    /// to decode as the CLI's error envelope, and the document's text.
    ErrorEnvelope { error: String, raw: String },
}

/// A single-document reply: `NoOutput` when stdout holds nothing but white
/// space; a parse error carrying the text when it is not JSON; the `error`
/// member when the document is an object that has one; the document
/// otherwise. The exit code never decides.
pub fn json_reply(stdout: &[u8]) -> (r: Result<JsonDocument, CliError>)
    ensures
        reply_text(stdout@).len() == 0 ==> r matches Err(CliError::NoOutput),
        reply_text(stdout@).len() > 0 ==> match json_member_text_of(reply_text(stdout@), "error"@) {
            Err(message) => r matches Err(CliError::Parse { message: m, raw: w }) && m@ == message
                && w@ == reply_text(stdout@),
            Ok(Some(e)) => r matches Ok(JsonDocument::ErrorEnvelope { error, raw }) && error@ == e
                && raw@ == reply_text(stdout@),
            Ok(None) => r matches Ok(JsonDocument::Document(t)) && t@ == reply_text(stdout@),
        },
{
    let text = match json_reply_text(stdout) {
        Ok(t) => t,
        Err(e) => return Err(e),
    };
    match json_member_text(text.as_str(), "error") {
        Err(message) => Err(CliError::Parse { message, raw: text }),
        Ok(Some(error)) => Ok(JsonDocument::ErrorEnvelope { error, raw: text }),
        Ok(None) => Ok(JsonDocument::Document(text)),
    }
}

/// The error a reply with an `error` member comes to: the CLI's error when
/// the member decoded as the error envelope, else a parse error with the
/// decoder's message and the reply's text.
pub fn envelope_error(decoded: Result<CliErrorBody, String>, raw: String) -> (e: CliError)
    ensures
        match decoded {
            Ok(body) => e matches CliError::Cli(b) && *b == body,
            Err(message) => e matches CliError::Parse { message: m, raw: w } && m == message && w
                == raw,
        },
{
    match decoded {
        Ok(body) => CliError::Cli(Box::new(body)),
        Err(message) => CliError::Parse { message, raw },
    }
}

/// A document decoded into its expected shape, or the decoder's message:
/// the message becomes a parse error carrying the document's text.
pub fn parse_reply<T>(decoded: Result<T, String>, raw: String) -> (r: Result<T, CliError>)
    ensures
        match decoded {
            Ok(v) => r == Ok::<T, CliError>(v),
            Err(message) => r matches Err(CliError::Parse { message: m, raw: w }) && m == message
                && w == raw,
        },
{
    match decoded {
        Ok(v) => Ok(v),
        Err(message) => Err(CliError::Parse { message, raw }),
    }
}

/// `--version --json`, decoded: accepted only when its `jsonContract` is the
/// expected one and its version meets the minimum; otherwise the error says
/// which check failed, the contract being checked first.
pub fn version(decoded: Result<VersionInfo, String>, raw: String) -> (r: Result<VersionInfo, CliError>)
    ensures
        match decoded {
            Err(message) => r matches Err(CliError::Parse { message: m, raw: w }) && m == message
                && w == raw,
            Ok(info) => if info.json_contract != EXPECTED_JSON_CONTRACT {
                r == Err::<VersionInfo, CliError>(
                    CliError::ContractMismatch {
                        expected: EXPECTED_JSON_CONTRACT,
                        actual: info.json_contract,
                    },
                )
            } else if !meets_minimum(info.version@, MINIMUM_CLI_VERSION@) {
                r matches Err(CliError::VersionTooOld { minimum, actual }) && minimum@
                    == MINIMUM_CLI_VERSION@ && actual@ == info.version@
            } else {
                r == Ok::<VersionInfo, CliError>(info)
            },
        },
{
    let info = match decoded {
        Ok(info) => info,
        Err(message) => return Err(CliError::Parse { message, raw }),
    };
    if info.json_contract != EXPECTED_JSON_CONTRACT {
        return Err(
            CliError::ContractMismatch {
                expected: EXPECTED_JSON_CONTRACT,
                actual: info.json_contract,
            },
        );
    }
    if !meets_minimum_version(info.version.as_str(), MINIMUM_CLI_VERSION) {
        return Err(
            CliError::VersionTooOld {
                minimum: String::from_str(MINIMUM_CLI_VERSION),
                actual: info.version.clone(),
            },
        );
    }
    Ok(info)
}

/// `runtime status --json` (or the result of `runtime ensure`), decoded:
/// accepted only with the expected `schemaVersion`.
pub fn parse_runtime_status(decoded: Result<RuntimeStatus, String>, raw: String) -> (r: Result<
    RuntimeStatus,
    CliError,
>)
    ensures
        match decoded {
            Err(message) => r matches Err(CliError::Parse { message: m, raw: w }) && m == message
                && w == raw,
            Ok(status) => if status.schema_version != EXPECTED_RUNTIME_SCHEMA {
                r == Err::<RuntimeStatus, CliError>(
                    CliError::RuntimeSchemaMismatch {
                        expected: EXPECTED_RUNTIME_SCHEMA,
                        actual: status.schema_version,
                    },
                )
            } else {
                r == Ok::<RuntimeStatus, CliError>(status)
            },
        },
{
    let status = match decoded {
        Ok(status) => status,
        Err(message) => return Err(CliError::Parse { message, raw }),
    };
    if status.schema_version != EXPECTED_RUNTIME_SCHEMA {
        return Err(
            CliError::RuntimeSchemaMismatch {
                expected: EXPECTED_RUNTIME_SCHEMA,
                actual: status.schema_version,
            },
        );
    }
    Ok(status)
}

/// Where a streamed reply stands. `outcome` is what the lines so far
/// decided (`None`: nothing yet; a successful outcome's payload is `None`
/// when the final line carried no `result`); `ended` is set by the stream's
/// terminal line, after which no line counts.
pub struct StreamState<V> {
    pub outcome: Option<Result<Option<V>, CliError>>,
    pub ended: bool,
}

impl<V> StreamState<V> {
    pub fn new() -> (r: StreamState<V>)
        ensures
            r.outcome is None,
            !r.ended,
    {
        StreamState { outcome: None, ended: false }
    }
}

/// One line of `runtime ensure --json` as the reply logic sees it.
pub enum EnsureLine<V, E> {
    /// Not JSON; the parser's message and the line.
    Malformed { message: String, raw: String },
    /// A document without a string `stage`: the runtime was already ready
    /// and this is its bare status.
    Bare(V),
    /// A progress or envelope line. `error_body` is the `error` member when
    /// it decodes as the error envelope, `result` the `result` member,
    /// `event` the line decoded as a progress event when it decodes.
    Staged {
        stage: String,
        state: Option<String>,
        error_body: Option<CliErrorBody>,
        result: Option<V>,
        event: Option<E>,
    },
}

/// `state`, or the empty string when there is none.
pub open spec fn state_or_empty(state: Option<String>) -> Seq<char> {
    match state {
        Some(s) => s@,
        None => Seq::empty(),
    }
}

fn is_literal(s: &String, lit: &str) -> (r: bool)
    ensures
        r == (s@ == lit@),
{
    str_equals(s.as_str(), lit)
}

/// Folds one line of `runtime ensure --json` into `state`, and returns the
/// progress event to forward, if the line is one. Once the stream has ended
/// nothing counts. A malformed line makes a parse error the outcome so far.
/// A bare status is the whole reply and ends the stream; an `error` line
/// whose envelope decodes ends it with that error; a `complete`/`done` line
/// ends it with its `result`. Any other staged line is progress, forwarded
/// only for the `software` and `environment` stages and when it decodes.
pub fn runtime_ensure_line<V, E>(state: &mut StreamState<V>, line: EnsureLine<V, E>) -> (forward:
    Option<E>)
    ensures
        old(state).ended ==> forward is None && final(state).outcome == old(state).outcome
            && final(state).ended,
        !old(state).ended ==> match line {
            EnsureLine::Malformed { message, raw } => {
                &&& forward is None
                &&& !final(state).ended
                &&& final(state).outcome matches Some(Err(CliError::Parse { message: m, raw: w }))
                &&& m == message
                &&& w == raw
            },
            EnsureLine::Bare(v) => {
                &&& forward is None
                &&& final(state).ended
                &&& final(state).outcome == Some(Ok::<Option<V>, CliError>(Some(v)))
            },
            EnsureLine::Staged { stage, state: st, error_body, result, event } => if state_or_empty(
                st,
            ) == "error"@ {
                &&& forward is None
                &&& match error_body {
                    Some(body) => final(state).ended && (final(state).outcome matches Some(
                        Err(CliError::Cli(b)),
                    ) && *b == body),
                    None => !final(state).ended && final(state).outcome == old(state).outcome,
                }
            } else if stage@ == "complete"@ && state_or_empty(st) == "done"@ {
                &&& forward is None
                &&& final(state).ended
                &&& final(state).outcome == Some(Ok::<Option<V>, CliError>(result))
            } else {
                &&& forward == if phase_index_spec(stage@) is Some {
                    event
                } else {
                    None
                }
                &&& !final(state).ended
                &&& final(state).outcome == old(state).outcome
            },
        },
{
    if state.ended {
        return None;
    }
    match line {
        EnsureLine::Malformed { message, raw } => {
            state.outcome = Some(Err(CliError::Parse { message, raw }));
            None
        },
        EnsureLine::Bare(v) => {
            state.outcome = Some(Ok(Some(v)));
            state.ended = true;
            None
        },
        EnsureLine::Staged { stage, state: st, error_body, result, event } => {
            let is_error = match &st {
                Some(s) => is_literal(s, "error"),
                None => false,
            };
            let is_done = match &st {
                Some(s) => is_literal(s, "done"),
                None => false,
            };
            proof {
                reveal_strlit("error");
                reveal_strlit("done");
                assert("error"@.len() == 5 && "done"@.len() == 4);
            }
            if is_error {
                if let Some(body) = error_body {
                    state.outcome = Some(Err(CliError::Cli(Box::new(body))));
                    state.ended = true;
                }
                None
            } else if is_literal(&stage, "complete") && is_done {
                state.outcome = Some(Ok(result));
                state.ended = true;
                None
            } else if phase_index(stage.as_str()).is_some() {
                event
            } else {
                None
            }
        },
    }
}

/// `text`, or the empty string when there is none.
pub open spec fn text_or_empty(text: Option<Seq<char>>) -> Seq<char> {
    match text {
        Some(t) => t,
        None => Seq::empty(),
    }
}

/// The error envelope in an `error` member's text, when it decodes.
fn error_envelope(error: Option<String>) -> (r: Option<CliErrorBody>)
    ensures
        match r {
            Some(body) => error is Some && error_body_problem(error->Some_0@) is None
                && body_matches(body, error->Some_0@),
            None => !(error is Some && error_body_problem(error->Some_0@) is None),
        },
{
    match error {
        Some(e) => match decode_error_body(e.as_str()) {
            Ok(body) => Some(body),
            Err(_) => None,
        },
        None => None,
    }
}

/// Reads one line of `runtime ensure --json` and folds it into `state`
/// (see `runtime_ensure_line`), returning the progress event to forward.
/// A line that is not JSON is malformed; a document without a string
/// `stage` is the bare status, kept as the line's text; a staged line's
/// `error` member is the error envelope when it decodes, its `result` member
/// is kept as JSON text, and the whole line is the progress event when it
/// decodes as one.
pub fn ensure_text_line(state: &mut StreamState<String>, line: &str) -> (forward: Option<
    RuntimeSetupEvent,
>)
    ensures
        old(state).ended ==> forward is None && final(state).outcome == old(state).outcome
            && final(state).ended,
        !old(state).ended ==> match json_member_of(line@, "stage"@) {
            Err(message) => {
                &&& forward is None
                &&& !final(state).ended
                &&& final(state).outcome matches Some(Err(CliError::Parse { message: m, raw: w }))
                &&& m@ == message
                &&& w@ == line@
            },
            Ok(Some(MemberView::Str(stage))) => {
                let st = text_or_empty(member_str(line@, "state"@));
                let error = member_text(line@, "error"@);
                if st == "error"@ {
                    &&& forward is None
                    &&& if error is Some && error_body_problem(error->Some_0) is None {
                        final(state).ended && (final(state).outcome matches Some(
                            Err(CliError::Cli(b)),
                        ) && body_matches(*b, error->Some_0))
                    } else {
                        !final(state).ended && final(state).outcome == old(state).outcome
                    }
                } else if stage == "complete"@ && st == "done"@ {
                    &&& forward is None
                    &&& final(state).ended
                    &&& final(state).outcome matches Some(Ok(r))
                    &&& opt_string_view(r) == member_text(line@, "result"@)
                } else {
                    &&& !final(state).ended
                    &&& final(state).outcome == old(state).outcome
                    &&& match forward {
                        Some(event) => phase_index_spec(stage) is Some && event_decodes(line@)
                            && event_matches(event, line@),
                        None => !(phase_index_spec(stage) is Some && event_decodes(line@)),
                    }
                }
            },
            _ => {
                &&& forward is None
                &&& final(state).ended
                &&& final(state).outcome matches Some(Ok(Some(s)))
                &&& s@ == line@
            },
        },
{
    let parsed: EnsureLine<String, RuntimeSetupEvent> = match json_member(line, "stage") {
        Err(message) => EnsureLine::Malformed { message, raw: String::from_str(line) },
        Ok(Some(JsonMember::Str(stage))) => {
            let error = read_member_text(line, "error");
            EnsureLine::Staged {
                stage,
                state: read_member_str(line, "state"),
                error_body: error_envelope(error),
                result: read_member_text(line, "result"),
                event: decode_setup_event(line),
            }
        },
        _ => EnsureLine::Bare(String::from_str(line)),
    };
    runtime_ensure_line(state, parsed)
}

/// One line of an `add`/`update`/`remove --json` progress stream.
pub enum StreamLine<V> {
    /// Not a progress event; the parser's message and the line.
    Malformed { message: String, raw: String },
    /// A progress event. `error_body` is its `error` member when that decodes
    /// as the error envelope, `result` its `result` member.
    Event { stage: String, state: String, error_body: Option<CliErrorBody>, result: Option<V> },
}

/// Folds one progress line into `state` and says whether the line is an
/// event to pass on to the frontend. Once the stream has ended nothing
/// counts and nothing is passed on. A malformed line makes a parse error
/// the outcome so far. An `error` event whose envelope decodes ends the
/// stream with that error; a `complete`/`done` event ends it with its
/// `result`; any other event leaves the outcome as it is.
pub fn progress_stream_line<V>(state: &mut StreamState<V>, line: StreamLine<V>) -> (emit: bool)
    ensures
        old(state).ended ==> !emit && final(state).outcome == old(state).outcome
            && final(state).ended,
        !old(state).ended ==> match line {
            StreamLine::Malformed { message, raw } => {
                &&& !emit
                &&& !final(state).ended
                &&& final(state).outcome matches Some(Err(CliError::Parse { message: m, raw: w }))
                &&& m == message
                &&& w == raw
            },
            StreamLine::Event { stage, state: st, error_body, result } => {
                &&& emit
                &&& if st@ == "error"@ {
                    match error_body {
                        Some(body) => final(state).ended && (final(state).outcome matches Some(
                            Err(CliError::Cli(b)),
                        ) && *b == body),
                        None => !final(state).ended && final(state).outcome == old(state).outcome,
                    }
                } else if stage@ == "complete"@ && st@ == "done"@ {
                    final(state).ended && final(state).outcome == Some(
                        Ok::<Option<V>, CliError>(result),
                    )
                } else {
                    !final(state).ended && final(state).outcome == old(state).outcome
                }
            },
        },
{
    if state.ended {
        return false;
    }
    match line {
        StreamLine::Malformed { message, raw } => {
            state.outcome = Some(Err(CliError::Parse { message, raw }));
            false
        },
        StreamLine::Event { stage, state: st, error_body, result } => {
            if is_literal(&st, "error") {
                if let Some(body) = error_body {
                    state.outcome = Some(Err(CliError::Cli(Box::new(body))));
                    state.ended = true;
                }
            } else if is_literal(&stage, "complete") && is_literal(&st, "done") {
                state.outcome = Some(Ok(result));
                state.ended = true;
            }
            true
        },
    }
}

/// Reads one line of an `add`/`update`/`remove --json` progress stream and
/// folds it into `state` (see `progress_stream_line`), saying whether the
/// line is to be passed on to the frontend. A line that is not JSON, or not
/// an object with a string `stage` and `state` (and a string `detail` when
/// it has one), is malformed; the `error` member is the error envelope when
/// it decodes, and the `result` member is kept as JSON text.
pub fn progress_text_line(state: &mut StreamState<String>, line: &str) -> (emit: bool)
    ensures
        old(state).ended ==> !emit && final(state).outcome == old(state).outcome
            && final(state).ended,
        !old(state).ended ==> match stream_event_problem(line@) {
            Some(p) => {
                &&& !emit
                &&& !final(state).ended
                &&& final(state).outcome matches Some(Err(CliError::Parse { message: m, raw: w }))
                &&& m@ == p
                &&& w@ == line@
            },
            None => {
                let stage = required_str(line@, "stage"@)->Ok_0;
                let st = required_str(line@, "state"@)->Ok_0;
                let error = member_text(line@, "error"@);
                &&& emit
                &&& if st == "error"@ {
                    if error is Some && error_body_problem(error->Some_0) is None {
                        final(state).ended && (final(state).outcome matches Some(
                            Err(CliError::Cli(b)),
                        ) && body_matches(*b, error->Some_0))
                    } else {
                        !final(state).ended && final(state).outcome == old(state).outcome
                    }
                } else if stage == "complete"@ && st == "done"@ {
                    &&& final(state).ended
                    &&& final(state).outcome matches Some(Ok(r))
                    &&& opt_string_view(r) == member_text(line@, "result"@)
                } else {
                    !final(state).ended && final(state).outcome == old(state).outcome
                }
            },
        },
{
    let parsed: StreamLine<String> = match decode_stream_event(line) {
        Err(message) => StreamLine::Malformed { message, raw: String::from_str(line) },
        Ok((stage, st)) => {
            let error = read_member_text(line, "error");
            StreamLine::Event {
                stage,
                state: st,
                error_body: error_envelope(error),
                result: read_member_text(line, "result"),
            }
        },
    };
    progress_stream_line(state, parsed)
}

/// The result of a finished stream: its outcome, or `NoOutput` when no line
/// decided anything.
pub fn stream_result<V>(state: StreamState<V>) -> (r: Result<Option<V>, CliError>)
    ensures
        match state.outcome {
            Some(o) => r == o,
            None => r matches Err(CliError::NoOutput),
        },
{
    match state.outcome {
        Some(o) => o,
        None => Err(CliError::NoOutput),
    }
}

/// Every command runs its own CLI verb on the deck it names, asking for
/// JSON: `status`, `start`, `stop`, `restart`, `doctor`, `config show`,
/// `logs` and `update` take the deck by `--name`; `add` puts its image and
/// memory after `--json`, and `remove` either keeps the volumes or deletes
/// them with or without a backup.
pub proof fn commands_run_their_own_verbs(
    name: &str,
    tail: u32,
    opts: NewDeckOptions,
    remove: RemoveOptions,
)
    ensures
        CliCommand::Version.args_spec() == seq!["--version"@, "--json"@],
        CliCommand::RuntimeStatus.args_spec() == seq!["runtime"@, "status"@, "--json"@],
        CliCommand::RuntimeEnsure.args_spec() == seq!["runtime"@, "ensure"@, "--json"@],
        CliCommand::List.args_spec() == seq!["list"@, "--json"@],
        (CliCommand::Status { name }).args_spec() == seq!["status"@, "--name"@, name@, "--json"@],
        (CliCommand::Start { name }).args_spec() == seq!["start"@, "--name"@, name@, "--json"@],
        (CliCommand::Stop { name }).args_spec() == seq!["stop"@, "--name"@, name@, "--json"@],
        (CliCommand::Restart { name }).args_spec() == seq!["restart"@, "--name"@, name@, "--json"@],
        (CliCommand::Doctor { name }).args_spec() == seq!["doctor"@, "--name"@, name@, "--json"@],
        (CliCommand::Config { name }).args_spec() == seq![
            "config"@,
            "show"@,
            "--name"@,
            name@,
            "--json"@,
        ],
        (CliCommand::Logs { name, tail }).args_spec() == seq![
            "logs"@,
            "--name"@,
            name@,
            "--tail"@,
            decimal(tail as nat),
            "--json"@,
        ],
        CliCommand::SuggestDefaults.args_spec() == seq!["add"@, "--suggest-defaults"@, "--json"@],
        (CliCommand::Update { name }).args_spec() == seq!["update"@, "--name"@, name@, "--json"@],
        (CliCommand::Add { opts }).args_spec() == seq![
            "add"@,
            "--name"@,
            opts.name@,
            "--port"@,
            opts.port@,
            "--json"@,
        ] + (match opts.image {
            Some(i) => seq!["--image"@, i@],
            None => Seq::empty(),
        }) + (match opts.memory {
            Some(m) => seq!["--memory"@, m@],
            None => Seq::empty(),
        }),
        (CliCommand::Remove { name, opts: remove }).args_spec() == seq![
            "remove"@,
            name@,
            "--yes"@,
            "--json"@,
        ] + (if remove.keep_volumes {
            seq!["--keep-volumes"@]
        } else if remove.backup {
            seq!["--delete-volumes"@, "--backup"@]
        } else {
            seq!["--delete-volumes"@, "--no-backup"@]
        }),
{
}

/// The commands that change things (`runtime ensure`, `add`, `update`,
/// `remove`) are exactly those whose reply is streamed, and exactly those
/// given the long timeout of twenty minutes; every single-document command
/// gets fifteen seconds. Only `add`, `update` and `remove` forward progress
/// events, each under its own name.
pub proof fn changing_commands_get_the_long_timeout(command: CliCommand)
    ensures
        command.reply_spec() != ReplyKind::Document <==> command.timeout_spec()
            == OperationTimeout::Mutation,
        command.timeout_spec().seconds_spec() == if command.reply_spec() == ReplyKind::Document {
            15u64
        } else {
            1200u64
        },
        command.reply_spec() == ReplyKind::RuntimeSetup <==> (command is RuntimeEnsure),
        command.reply_spec() == ReplyKind::Progress <==> ((command is Add) || (command is Update)
            || (command is Remove)),
        (command is Add) ==> command.progress_event_spec() == Some("add-progress"@),
        (command is Update) ==> command.progress_event_spec() == Some("update-progress"@),
        (command is Remove) ==> command.progress_event_spec() == Some("remove-progress"@),
        command.progress_event_spec() is Some <==> command.reply_spec() == ReplyKind::Progress,
{
}

} // verus!
