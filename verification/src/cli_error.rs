//! Every failure mode of talking to the CLI, and the one-line text each is
//! shown as.

use vstd::prelude::*;
use vstd::string::*;
use crate::text::{decimal, decimal_string};

verus! {

/// The CLI's own structured error envelope.
#[derive(Debug, Clone)]
pub struct CliErrorBody {
    pub code: String,
    pub message: String,
    pub hint: Option<String>,
    pub detail: Option<String>,
    pub action: Option<String>,
    pub action_value: Option<String>,
    pub instances: Option<Vec<String>>,
}

/// Every failure mode of talking to the CLI, distinguishable so that each can
/// be rendered differently.
#[derive(Debug, Clone)]
#[allow(inconsistent_fields)]
pub enum CliError {
    /// The sidecar could not be spawned at all.
    Spawn { message: String },
    /// The process produced no stdout at all.
    NoOutput,
    /// stdout was not valid JSON, or did not have the expected shape.
    Parse { message: String, raw: String },
    /// The CLI's own structured error envelope.
    Cli(Box<CliErrorBody>),
    /// The CLI's `jsonContract` is not the one this build expects.
    ContractMismatch { expected: u64, actual: u64 },
    /// The CLI is older than the minimum version, or its version does not parse.
    VersionTooOld { minimum: String, actual: String },
    /// stdout or stderr exceeded its limit; the process was killed.
    OutputLimitExceeded { stream: String },
    /// The process did not finish within its operation's timeout.
    Timeout,
    /// The runtime status `schemaVersion` is not the one this build expects.
    RuntimeSchemaMismatch { expected: u32, actual: u32 },
}

impl CliError {
    /// The one-line description of the error.
    pub open spec fn message_spec(&self) -> Seq<char> {
        match self {
            CliError::Spawn { message } => "failed to run omnideck CLI: "@ + message@,
            CliError::NoOutput => "omnideck CLI produced no output"@,
            CliError::Parse { message, .. } => "failed to parse omnideck CLI output: "@ + message@,
            CliError::Cli(body) => "omnideck CLI error ["@ + body.code@ + "]: "@ + body.message@,
            CliError::ContractMismatch { expected, actual } => "omnideck CLI jsonContract mismatch: this app expects "@
                + decimal(*expected as nat) + ", CLI reports "@ + decimal(*actual as nat),
            CliError::VersionTooOld { minimum, actual } => "omnideck CLI version too old: this app requires at least "@
                + minimum@ + ", CLI reports "@ + actual@,
            CliError::OutputLimitExceeded { stream } => "omnideck CLI exceeded the "@ + stream@
                + " output limit"@,
            CliError::Timeout => "omnideck CLI did not finish in time"@,
            CliError::RuntimeSchemaMismatch { expected, actual } => "omnideck CLI runtime status schema mismatch: this app expects "@
                + decimal(*expected as nat) + ", CLI reports "@ + decimal(*actual as nat),
        }
    }

    /// The one-line description of the error, as the frontend and the
    /// onboarding screen show it.
    pub fn to_message(&self) -> (r: String)
        ensures
            r@ == self.message_spec(),
    {
        match self {
            CliError::Spawn { message } => {
                String::from_str("failed to run omnideck CLI: ").concat(message.as_str())
            },
            CliError::NoOutput => String::from_str("omnideck CLI produced no output"),
            CliError::Parse { message, .. } => {
                String::from_str("failed to parse omnideck CLI output: ").concat(message.as_str())
            },
            CliError::Cli(body) => {
                let r = String::from_str("omnideck CLI error [").concat(body.code.as_str());
                r.concat("]: ").concat(body.message.as_str())
            },
            CliError::ContractMismatch { expected, actual } => {
                let e = decimal_string(*expected);
                let a = decimal_string(*actual);
                String::from_str(
                    "omnideck CLI jsonContract mismatch: this app expects ",
                ).concat(e.as_str()).concat(", CLI reports ").concat(a.as_str())
            },
            CliError::VersionTooOld { minimum, actual } => {
                String::from_str(
                    "omnideck CLI version too old: this app requires at least ",
                ).concat(minimum.as_str()).concat(", CLI reports ").concat(actual.as_str())
            },
            CliError::OutputLimitExceeded { stream } => {
                String::from_str("omnideck CLI exceeded the ").concat(stream.as_str()).concat(
                    " output limit",
                )
            },
            CliError::Timeout => String::from_str("omnideck CLI did not finish in time"),
            CliError::RuntimeSchemaMismatch { expected, actual } => {
                let e = decimal_string(*expected as u64);
                let a = decimal_string(*actual as u64);
                String::from_str(
                    "omnideck CLI runtime status schema mismatch: this app expects ",
                ).concat(e.as_str()).concat(", CLI reports ").concat(a.as_str())
            },
        }
    }
}

} // verus!
