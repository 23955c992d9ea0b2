//! The shapes of the CLI's `--json` replies, as plain values.

use vstd::prelude::*;

verus! {

/// `omnideck --version --json`.
#[derive(Debug, Clone)]
pub struct VersionInfo {
    pub version: String,
    pub commit: String,
    pub date: String,
    pub json_contract: u64,
}

/// `runtime status` / `runtime ensure`: the readiness of the shared Podman
/// runtime.
#[derive(Debug, Clone)]
pub struct RuntimeStatus {
    pub schema_version: u32,
    pub runtime: String,
    pub state: String,
    pub ready: bool,
    pub path: Option<String>,
    pub version: Option<String>,
    pub detail: Option<String>,
    pub warning: Option<String>,
    pub machine_name: Option<String>,
    pub phase: String,
    pub activity: String,
    pub resources: RuntimeResources,
}

#[derive(Debug, Clone)]
pub struct RuntimeResources {
    pub container: RuntimeContainerResources,
    pub machine: RuntimeMachineResources,
}

#[derive(Debug, Clone)]
pub struct RuntimeContainerResources {
    pub memory: String,
    pub shm_size: String,
}

#[derive(Debug, Clone)]
pub struct RuntimeMachineResources {
    pub mode: String,
    pub cpus: Option<u32>,
    pub memory_mb: Option<u64>,
    pub disk_gb: Option<u32>,
}

/// One progress line of `runtime ensure`. Its fractional `progress` is kept
/// by the caller, which renders it; everything decided on is here.
#[derive(Debug, Clone)]
pub struct RuntimeSetupEvent {
    pub stage: String,
    pub substage: Option<String>,
    pub state: Option<String>,
    pub activity: Option<String>,
    pub status: Option<String>,
    pub detail: Option<String>,
}

/// A volume's existence, part of `status --json`.
#[derive(Debug, Clone)]
pub struct VolumeStatus {
    pub name: String,
    pub exists: bool,
}

/// Ollama reachability, part of `status --json`.
#[derive(Debug, Clone)]
pub struct OllamaStatus {
    pub reachable: bool,
    pub host: String,
}

/// `status --json`, also returned by `start`/`stop`/`restart`/`add`/`update`.
#[derive(Debug, Clone)]
pub struct InstanceStatus {
    pub name: String,
    pub container: String,
    pub status: String,
    pub image: String,
    pub engine: String,
    pub web_ui_port: String,
    pub home_volume: VolumeStatus,
    pub state_volume: VolumeStatus,
    pub ollama: OllamaStatus,
}

/// One check of `doctor --json`.
#[derive(Debug, Clone)]
pub struct DoctorCheck {
    pub label: String,
    pub status: String,
    pub detail: String,
    pub hint: String,
    pub action: Option<String>,
    pub action_label: Option<String>,
    pub action_value: Option<String>,
}

#[derive(Debug, Clone)]
pub struct DoctorResult {
    pub checks: Vec<DoctorCheck>,
    pub all_pass: bool,
}

/// `config show --json`.
#[derive(Debug, Clone)]
pub struct ConfigInfo {
    pub container_name: String,
    pub home_volume: String,
    pub state_volume: String,
    pub memory: String,
    pub shm_size: String,
    pub web_ui_port: String,
    pub runtime: String,
    pub image: String,
    pub installed_at: String,
}

/// `logs --json` (not following).
#[derive(Debug, Clone)]
pub struct LogsResult {
    pub lines: Vec<String>,
}

/// `add --suggest-defaults --json`.
#[derive(Debug, Clone)]
pub struct AddSuggestion {
    pub name: String,
    pub web_ui_port: String,
}

/// The choices of a new Deck.
pub struct NewDeckOptions<'a> {
    pub name: &'a str,
    pub port: &'a str,
    pub image: Option<&'a str>,
    pub memory: Option<&'a str>,
}

/// The final result of `remove --json`.
#[derive(Debug, Clone)]
pub struct RemoveResult {
    pub container_stopped: bool,
    pub container_removed: bool,
    pub removed_volumes: Vec<String>,
    pub backup_path: Option<String>,
}

/// The explicit choices that `remove` requires.
pub struct RemoveOptions {
    /// `true` keeps the volumes, `false` deletes them.
    pub keep_volumes: bool,
    /// Only consulted when the volumes are deleted: back them up first.
    pub backup: bool,
}

} // verus!
