//! Verified core of the Omnideck desktop shell: the decisions that sit between
//! the `omnideck` CLI's JSON/NDJSON output and the onboarding/dashboard UI,
//! the reading of that output included. Process spawning and windows are
//! done by the app around it.

pub mod bootstrap;
pub mod cli_bridge;
pub mod cli_error;
pub mod json;
pub mod line_buffer;
pub mod model;
pub mod process;
pub mod semver;
pub mod setup;
pub mod splitting;
pub mod text;

pub use bootstrap::{BootstrapError, BootstrapState, RecoveryAction, WindowUrl};
pub use cli_bridge::{CliCommand, CliInvocation, OperationTimeout, ReplyKind};
pub use cli_error::{CliError, CliErrorBody};
pub use line_buffer::LineBuffer;
pub use model::{
    AddSuggestion, ConfigInfo, DoctorCheck, DoctorResult, InstanceStatus, LogsResult,
    NewDeckOptions, OllamaStatus, RemoveOptions, RemoveResult, RuntimeContainerResources,
    RuntimeMachineResources, RuntimeResources, RuntimeSetupEvent, RuntimeStatus, VersionInfo,
    VolumeStatus,
};
pub use process::{append_bounded, CliRun, ProcessEvent, ProcessResult, RunStep};
pub use semver::{meets_minimum_version, parse_semver};
pub use setup::{Diagnostic, ProgressMark, SetupState};
