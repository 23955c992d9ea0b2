use omnideck_desktop::cli_bridge::{
    envelope_error, ensure_text_line, json_reply, json_reply_text, parse_reply, parse_runtime_status,
    progress_stream_line, progress_text_line, runtime_ensure_line, stream_result, version,
    EnsureLine, JsonDocument, StreamLine, StreamState, CLI_SIDECAR, EXPECTED_JSON_CONTRACT,
    EXPECTED_RUNTIME_SCHEMA, MINIMUM_CLI_VERSION,
};
use omnideck_desktop::json::{decode_error_body, decode_setup_event, decode_stream_event};
use omnideck_desktop::process::{STDERR_LIMIT, STDOUT_LIMIT};
use omnideck_desktop::{
    append_bounded, meets_minimum_version, parse_semver, CliCommand, CliError, CliErrorBody,
    CliRun, LineBuffer, NewDeckOptions, OperationTimeout, ProcessEvent, RemoveOptions,
    ReplyKind, RunStep, RuntimeContainerResources, RuntimeMachineResources, RuntimeResources,
    RuntimeStatus, VersionInfo,
};

fn body(code: &str, message: &str) -> CliErrorBody {
    CliErrorBody {
        code: code.to_string(),
        message: message.to_string(),
        hint: None,
        detail: None,
        action: None,
        action_value: None,
        instances: None,
    }
}

fn runtime_status(schema: u32, state: &str, ready: bool, phase: &str) -> RuntimeStatus {
    RuntimeStatus {
        schema_version: schema,
        runtime: "podman".to_string(),
        state: state.to_string(),
        ready,
        path: None,
        version: None,
        detail: None,
        warning: None,
        machine_name: None,
        phase: phase.to_string(),
        activity: "x".to_string(),
        resources: RuntimeResources {
            container: RuntimeContainerResources {
                memory: "2g".to_string(),
                shm_size: "1g".to_string(),
            },
            machine: RuntimeMachineResources {
                mode: "host-native".to_string(),
                cpus: None,
                memory_mb: None,
                disk_gb: None,
            },
        },
    }
}

#[test]
fn output_is_bounded() {
    let mut output = Vec::new();
    append_bounded(&mut output, &[b'a'; 4], 5, "stdout").unwrap();
    append_bounded(&mut output, b"b", 5, "stdout").unwrap();
    let error = append_bounded(&mut output, b"c", 5, "stdout").unwrap_err();
    assert!(matches!(
        error,
        CliError::OutputLimitExceeded { stream } if stream == "stdout"
    ));
}

#[test]
fn append_bounded_refusal_leaves_the_destination_alone() {
    let mut output = b"abc".to_vec();
    let error = append_bounded(&mut output, b"def", 5, "stderr").unwrap_err();
    assert!(matches!(error, CliError::OutputLimitExceeded { stream } if stream == "stderr"));
    assert_eq!(output, b"abc".to_vec());
    append_bounded(&mut output, b"de", 5, "stderr").unwrap();
    assert_eq!(output, b"abcde".to_vec());
    append_bounded(&mut output, b"", 5, "stderr").unwrap();
    assert_eq!(output.len(), 5);
}

#[test]
fn json_lines_are_reassembled_across_process_chunks() {
    let mut buffer = LineBuffer::default();
    let mut lines: Vec<String> = Vec::new();
    lines.extend(buffer.push(br#"{"stage":"pull"#));
    lines.extend(buffer.push(b"_image\"}\r\n{\"stage\":\"start"));
    lines.extend(buffer.push(b"_container\"}"));
    lines.extend(buffer.flush());
    assert_eq!(
        lines,
        [
            r#"{"stage":"pull_image"}"#,
            r#"{"stage":"start_container"}"#
        ]
    );
}

#[test]
fn chunking_does_not_change_the_lines() {
    let whole = b"  first line \r\n\r\nsecond\nthird partial".to_vec();
    let mut at_once = LineBuffer::new();
    let mut expected = at_once.push(&whole);
    expected.extend(at_once.flush());
    for cut in 0..=whole.len() {
        let mut buffer = LineBuffer::new();
        let mut lines = buffer.push(&whole[..cut]);
        lines.extend(buffer.push(&whole[cut..]));
        lines.extend(buffer.flush());
        assert_eq!(lines, expected, "cut at {cut}");
    }
    assert_eq!(expected, ["first line", "second", "third partial"]);
}

#[test]
fn invalid_utf8_is_replaced_not_dropped() {
    assert_eq!(
        LineBuffer::deliver(&[0xff, b'a', b' ']),
        Some("\u{fffd}a".to_string())
    );
    assert_eq!(LineBuffer::deliver(b" \t\r "), None);
    assert_eq!(LineBuffer::deliver("\u{3000}x\u{a0}".as_bytes()), Some("x".to_string()));
}

#[test]
fn minimum_version_floor_accepts_equal_and_newer() {
    assert!(meets_minimum_version("v0.10.0", "v0.10.0"));
    assert!(meets_minimum_version("v0.10.1", "v0.10.0"));
    assert!(meets_minimum_version("v0.11.0", "v0.10.0"));
    assert!(meets_minimum_version("v1.0.0", "v0.10.0"));
}

#[test]
fn minimum_version_floor_rejects_older_and_prerelease_of_the_floor() {
    assert!(!meets_minimum_version("v0.9.1", "v0.10.0"));
    assert!(!meets_minimum_version("v0.10.0-alpha.2", "v0.10.0"));
    assert!(!meets_minimum_version("not-a-version", "v0.10.0"));
}

#[test]
fn semver_parsing_follows_the_number_rules() {
    assert_eq!(parse_semver("v1.2.3"), Some((1, 2, 3, None)));
    assert_eq!(parse_semver("1.2.3"), Some((1, 2, 3, None)));
    assert_eq!(
        parse_semver("v0.11.0-alpha.2"),
        Some((0, 11, 0, Some("alpha.2".to_string())))
    );
    assert_eq!(parse_semver("v+1.02.3"), Some((1, 2, 3, None)));
    assert_eq!(
        parse_semver("v18446744073709551615.0.0"),
        Some((u64::MAX, 0, 0, None))
    );
    assert_eq!(parse_semver("v18446744073709551616.0.0"), None);
    assert_eq!(parse_semver("v1.2"), None);
    assert_eq!(parse_semver("v1.2.3.4"), None);
    assert_eq!(parse_semver("v1..3"), None);
    assert_eq!(parse_semver("v1.+.3"), None);
    assert_eq!(parse_semver("vv1.2.3"), None);
    assert_eq!(parse_semver(""), None);
    assert_eq!(parse_semver("v1.2.3-"), Some((1, 2, 3, Some(String::new()))));
}

#[test]
fn prereleases_compare_lexicographically() {
    assert!(meets_minimum_version("v1.0.0-beta", "v1.0.0-alpha"));
    assert!(!meets_minimum_version("v1.0.0-alpha", "v1.0.0-beta"));
    assert!(meets_minimum_version("v1.0.0-alpha", "v1.0.0-alpha"));
    assert!(meets_minimum_version("v1.0.0-alpha.1", "v1.0.0-alpha"));
    assert!(!meets_minimum_version("v1.0.0-alpha.10", "v1.0.0-alpha.9"));
    assert!(meets_minimum_version("v1.0.0", "v1.0.0-rc.1"));
    assert!(!meets_minimum_version("v1.0.0", "garbage"));
}

#[test]
fn version_info_parses_the_real_v0_11_0_alpha_2_shape() {
    let info = VersionInfo {
        version: "v0.11.0-alpha.2".to_string(),
        commit: "6ea721020691".to_string(),
        date: "2026-08-09T23:44:42Z".to_string(),
        json_contract: 3,
    };
    assert_eq!(info.version, "v0.11.0-alpha.2");
    assert_eq!(info.json_contract, EXPECTED_JSON_CONTRACT);
    assert!(meets_minimum_version(&info.version, MINIMUM_CLI_VERSION));
    let accepted = version(Ok(info), String::new()).unwrap();
    assert_eq!(accepted.commit, "6ea721020691");
}

#[test]
fn version_checks_contract_then_floor() {
    let info = |v: &str, contract: u64| VersionInfo {
        version: v.to_string(),
        commit: String::new(),
        date: String::new(),
        json_contract: contract,
    };
    assert!(matches!(
        version(Ok(info("v9.0.0", 2)), String::new()),
        Err(CliError::ContractMismatch { expected: 3, actual: 2 })
    ));
    assert!(matches!(
        version(Ok(info("v0.10.9", 2)), String::new()),
        Err(CliError::ContractMismatch { expected: 3, actual: 2 })
    ));
    match version(Ok(info("v0.10.9", 3)), String::new()) {
        Err(CliError::VersionTooOld { minimum, actual }) => {
            assert_eq!(minimum, "v0.11.0-alpha.2");
            assert_eq!(actual, "v0.10.9");
        }
        _ => panic!("expected VersionTooOld"),
    }
    assert!(matches!(
        version(Ok(info("v0.11.0-alpha.1", 3)), String::new()),
        Err(CliError::VersionTooOld { .. })
    ));
    assert!(version(Ok(info("v0.11.0", 3)), String::new()).is_ok());
    match version(Err("missing field".to_string()), "{}".to_string()) {
        Err(CliError::Parse { message, raw }) => {
            assert_eq!(message, "missing field");
            assert_eq!(raw, "{}");
        }
        _ => panic!("expected Parse"),
    }
}

#[test]
fn runtime_status_parses_the_real_host_native_shape() {
    let mut raw = runtime_status(4, "ready", true, "environment");
    raw.path = Some("/usr/bin/podman".to_string());
    raw.version = Some("5.8.4".to_string());
    raw.activity = "Preparing a secure space to run in…".to_string();
    raw.resources.container.memory = "6g".to_string();
    raw.resources.container.shm_size = "3072m".to_string();
    let status = parse_runtime_status(Ok(raw), String::new()).unwrap();
    assert!(status.ready);
    assert_eq!(status.resources.machine.mode, "host-native");
    assert_eq!(status.resources.machine.memory_mb, None);
}

#[test]
fn runtime_status_rejects_wrong_schema() {
    let raw = runtime_status(5, "ready", true, "environment");
    let error = parse_runtime_status(Ok(raw), String::new()).unwrap_err();
    assert!(matches!(
        error,
        CliError::RuntimeSchemaMismatch {
            expected: 4,
            actual: 5
        }
    ));
    assert_eq!(EXPECTED_RUNTIME_SCHEMA, 4);
}

#[test]
fn runtime_status_missing_uses_the_software_phase() {
    let mut raw = runtime_status(4, "missing", false, "software");
    raw.activity = "Getting your computer ready…".to_string();
    raw.resources.machine = RuntimeMachineResources {
        mode: "podman-managed".to_string(),
        cpus: Some(4),
        memory_mb: Some(4096),
        disk_gb: Some(40),
    };
    let status = parse_runtime_status(Ok(raw), String::new()).unwrap();
    assert!(!status.ready);
    assert_eq!(status.phase, "software");
    assert_eq!(status.resources.machine.memory_mb, Some(4096));
}

#[test]
fn cli_error_messages() {
    let cases: Vec<(CliError, &str)> = vec![
        (
            CliError::Spawn { message: "no such file".to_string() },
            "failed to run omnideck CLI: no such file",
        ),
        (CliError::NoOutput, "omnideck CLI produced no output"),
        (
            CliError::Parse { message: "eof".to_string(), raw: "{".to_string() },
            "failed to parse omnideck CLI output: eof",
        ),
        (
            CliError::Cli(Box::new(body("DOWNLOAD_FAILED", "network blip"))),
            "omnideck CLI error [DOWNLOAD_FAILED]: network blip",
        ),
        (
            CliError::ContractMismatch { expected: 3, actual: 12 },
            "omnideck CLI jsonContract mismatch: this app expects 3, CLI reports 12",
        ),
        (
            CliError::VersionTooOld { minimum: "v0.10.0".to_string(), actual: "v0.9.0".to_string() },
            "omnideck CLI version too old: this app requires at least v0.10.0, CLI reports v0.9.0",
        ),
        (
            CliError::OutputLimitExceeded { stream: "stderr".to_string() },
            "omnideck CLI exceeded the stderr output limit",
        ),
        (CliError::Timeout, "omnideck CLI did not finish in time"),
        (
            CliError::RuntimeSchemaMismatch { expected: 4, actual: 4294967295 },
            "omnideck CLI runtime status schema mismatch: this app expects 4, CLI reports 4294967295",
        ),
    ];
    for (error, text) in cases {
        assert_eq!(error.to_message(), text);
    }
}

#[test]
fn decimal_rendering_matches_to_string() {
    for n in [0u64, 7, 10, 99, 100, 1234567890, u64::MAX] {
        assert_eq!(omnideck_desktop::text::decimal_string(n), n.to_string());
    }
}

#[test]
fn trim_matches_std_trim() {
    for s in ["", "  ", "\u{2028}a b\u{200a}", "\u{85}x\u{180e}", "\tfoo\n", "no-trim"] {
        assert_eq!(omnideck_desktop::text::trim_text(s), s.trim());
    }
}

fn args(command: &CliCommand) -> Vec<String> {
    command.invocation().args
}

#[test]
fn command_arguments() {
    assert_eq!(args(&CliCommand::Version), ["--version", "--json"]);
    assert_eq!(args(&CliCommand::RuntimeStatus), ["runtime", "status", "--json"]);
    assert_eq!(args(&CliCommand::RuntimeEnsure), ["runtime", "ensure", "--json"]);
    assert_eq!(args(&CliCommand::List), ["list", "--json"]);
    assert_eq!(
        args(&CliCommand::Status { name: "demo" }),
        ["status", "--name", "demo", "--json"]
    );
    assert_eq!(
        args(&CliCommand::Restart { name: "demo" }),
        ["restart", "--name", "demo", "--json"]
    );
    assert_eq!(
        args(&CliCommand::Config { name: "demo" }),
        ["config", "show", "--name", "demo", "--json"]
    );
    assert_eq!(
        args(&CliCommand::Logs { name: "demo", tail: 200 }),
        ["logs", "--name", "demo", "--tail", "200", "--json"]
    );
    assert_eq!(
        args(&CliCommand::SuggestDefaults),
        ["add", "--suggest-defaults", "--json"]
    );
    assert_eq!(
        args(&CliCommand::Add {
            opts: NewDeckOptions { name: "work", port: "2338", image: None, memory: Some("2g") }
        }),
        ["add", "--name", "work", "--port", "2338", "--json", "--memory", "2g"]
    );
    assert_eq!(
        args(&CliCommand::Add {
            opts: NewDeckOptions { name: "w", port: "1", image: Some("img"), memory: Some("1g") }
        }),
        ["add", "--name", "w", "--port", "1", "--json", "--image", "img", "--memory", "1g"]
    );
    assert_eq!(
        args(&CliCommand::Update { name: "demo" }),
        ["update", "--name", "demo", "--json"]
    );
    assert_eq!(
        args(&CliCommand::Remove {
            name: "demo",
            opts: RemoveOptions { keep_volumes: true, backup: true }
        }),
        ["remove", "demo", "--yes", "--json", "--keep-volumes"]
    );
    assert_eq!(
        args(&CliCommand::Remove {
            name: "demo",
            opts: RemoveOptions { keep_volumes: false, backup: true }
        }),
        ["remove", "demo", "--yes", "--json", "--delete-volumes", "--backup"]
    );
    assert_eq!(
        args(&CliCommand::Remove {
            name: "demo",
            opts: RemoveOptions { keep_volumes: false, backup: false }
        }),
        ["remove", "demo", "--yes", "--json", "--delete-volumes", "--no-backup"]
    );
}

#[test]
fn command_timeouts_and_reply_kinds() {
    let ensure = CliCommand::RuntimeEnsure.invocation();
    assert_eq!(ensure.timeout, OperationTimeout::Mutation);
    assert_eq!(ensure.reply, ReplyKind::RuntimeSetup);
    assert_eq!(ensure.progress_event, None);
    let start = CliCommand::Start { name: "demo" }.invocation();
    assert_eq!(start.timeout, OperationTimeout::Inspection);
    assert_eq!(start.reply, ReplyKind::Document);
    let update = CliCommand::Update { name: "demo" }.invocation();
    assert_eq!(update.timeout, OperationTimeout::Mutation);
    assert_eq!(update.reply, ReplyKind::Progress);
    assert_eq!(update.progress_event.as_deref(), Some("update-progress"));
    let remove = CliCommand::Remove {
        name: "d",
        opts: RemoveOptions { keep_volumes: true, backup: false },
    }
    .invocation();
    assert_eq!(remove.progress_event.as_deref(), Some("remove-progress"));
    let add = CliCommand::Add {
        opts: NewDeckOptions { name: "d", port: "1", image: None, memory: None },
    }
    .invocation();
    assert_eq!(add.progress_event.as_deref(), Some("add-progress"));
    assert_eq!(OperationTimeout::Inspection.seconds(), 15);
    assert_eq!(OperationTimeout::Mutation.seconds(), 1200);
    assert_eq!(CLI_SIDECAR, "omnideck");
    assert_eq!(STDOUT_LIMIT, 1_000_000);
    assert_eq!(STDERR_LIMIT, 262_144);
}

#[test]
fn json_reply_text_trims_and_requires_output() {
    assert!(matches!(json_reply_text(b" \n\t "), Err(CliError::NoOutput)));
    assert!(matches!(json_reply_text(b""), Err(CliError::NoOutput)));
    assert_eq!(json_reply_text(b"\n {\"a\":1} \r\n").unwrap(), "{\"a\":1}");
}

fn document_text(stdout: &[u8]) -> String {
    match json_reply(stdout) {
        Ok(JsonDocument::Document(text)) => text,
        _ => panic!("expected a plain document"),
    }
}

#[test]
fn json_replies() {
    assert!(matches!(json_reply(b"  \n"), Err(CliError::NoOutput)));
    assert_eq!(document_text(b" {\"instances\":[]}\n"), "{\"instances\":[]}");
    assert_eq!(document_text(b"[1,2]"), "[1,2]");
    assert_eq!(document_text("{\"name\":\"d\u{e9}mo\"}".as_bytes()), "{\"name\":\"d\u{e9}mo\"}");
    match json_reply(b"{\"a\":") {
        Err(CliError::Parse { message, raw }) => {
            assert!(!message.is_empty());
            assert_eq!(raw, "{\"a\":");
        }
        _ => panic!("expected Parse"),
    }
    match json_reply(
        b"{\"error\":{\"code\":\"AMBIGUOUS_INSTANCE\",\"message\":\"Multiple\",\"instances\":[\"a\",\"b\"]}}\n",
    ) {
        Ok(JsonDocument::ErrorEnvelope { error, raw }) => {
            assert_eq!(
                error,
                "{\"code\":\"AMBIGUOUS_INSTANCE\",\"instances\":[\"a\",\"b\"],\"message\":\"Multiple\"}"
            );
            assert_eq!(
                raw,
                "{\"error\":{\"code\":\"AMBIGUOUS_INSTANCE\",\"message\":\"Multiple\",\"instances\":[\"a\",\"b\"]}}"
            );
            let b = decode_error_body(&error).unwrap();
            assert_eq!(b.code, "AMBIGUOUS_INSTANCE");
            assert_eq!(b.instances, Some(vec!["a".to_string(), "b".to_string()]));
        }
        _ => panic!("expected an error envelope"),
    }
    assert!(matches!(
        json_reply(b"{\"error\":null}"),
        Ok(JsonDocument::ErrorEnvelope { error, .. }) if error == "null"
    ));
    assert!(matches!(
        envelope_error(Ok(body("PORT_IN_USE", "busy")), "r".to_string()),
        CliError::Cli(b) if b.code == "PORT_IN_USE" && b.message == "busy"
    ));
    assert!(matches!(
        envelope_error(Err("missing field `code`".to_string()), "r".to_string()),
        CliError::Parse { message, raw } if message == "missing field `code`" && raw == "r"
    ));
    assert_eq!(parse_reply(Ok(5u8), String::new()).unwrap(), 5);
    assert!(matches!(
        parse_reply::<u8>(Err("m".to_string()), "r".to_string()),
        Err(CliError::Parse { message, raw }) if message == "m" && raw == "r"
    ));
}

#[test]
fn runtime_setup_event_parses_a_progress_line() {
    let raw = r#"{"stage":"software","state":"progress","activity":"Getting your computer ready…","detail":"Downloading Podman…","progress":0.4}"#;
    let event = decode_setup_event(raw).unwrap();
    assert_eq!(event.stage, "software");
    assert_eq!(event.state.as_deref(), Some("progress"));
    assert_eq!(event.detail.as_deref(), Some("Downloading Podman…"));
    assert_eq!(event.substage, None);
    assert_eq!(event.status, None);
}

#[test]
fn runtime_setup_event_parses_a_permission_wait_line() {
    let raw = r#"{"stage":"software","substage":"linux-permission","state":"permission","activity":"Waiting for approval from your computer…","status":"Password required","detail":"Your computer will ask you to approve installing Podman — the software omnideck uses to run in an isolated space. omnideck never sees or stores your password."}"#;
    let event = decode_setup_event(raw).unwrap();
    assert_eq!(event.state.as_deref(), Some("permission"));
    assert_eq!(event.substage.as_deref(), Some("linux-permission"));
    assert_eq!(event.status.as_deref(), Some("Password required"));
}

#[test]
fn error_envelopes_decode() {
    let b = decode_error_body(
        "{\"code\":\"C\",\"message\":\"M\",\"hint\":\"H\",\"detail\":null,\"action\":\"open\",\"actionValue\":\"u\"}",
    )
    .unwrap();
    assert_eq!(b.code, "C");
    assert_eq!(b.message, "M");
    assert_eq!(b.hint.as_deref(), Some("H"));
    assert_eq!(b.detail, None);
    assert_eq!(b.action.as_deref(), Some("open"));
    assert_eq!(b.action_value.as_deref(), Some("u"));
    assert_eq!(b.instances, None);
    assert_eq!(decode_error_body("{\"code\":\"C\"}").unwrap_err(), "missing field `message`");
    assert_eq!(
        decode_error_body("{\"code\":1,\"message\":\"M\"}").unwrap_err(),
        "invalid type: field `code`, expected a string"
    );
    assert_eq!(
        decode_error_body("{\"code\":\"C\",\"message\":\"M\",\"instances\":[1]}").unwrap_err(),
        "invalid type: field `instances`, expected a list of strings"
    );
    assert_eq!(
        decode_error_body("{\"code\":\"C\",\"message\":\"M\",\"hint\":true}").unwrap_err(),
        "invalid type: field `hint`, expected a string"
    );
    assert_eq!(decode_error_body("null").unwrap_err(), "invalid type: expected a JSON object");
    assert!(decode_error_body("{").unwrap_err().starts_with("EOF while parsing"));
    assert_eq!(decode_error_body("[]").unwrap_err(), "invalid type: expected a JSON object");
}

#[test]
fn setup_and_stream_events_decode() {
    let e = decode_setup_event(
        "{\"stage\":\"software\",\"substage\":\"wsl-permission\",\"state\":\"waiting\",\"activity\":\"A\",\"status\":\"Password required\",\"progress\":0.25}",
    )
    .unwrap();
    assert_eq!(e.stage, "software");
    assert_eq!(e.substage.as_deref(), Some("wsl-permission"));
    assert_eq!(e.state.as_deref(), Some("waiting"));
    assert_eq!(e.activity.as_deref(), Some("A"));
    assert_eq!(e.status.as_deref(), Some("Password required"));
    assert_eq!(e.detail, None);
    assert!(decode_setup_event("{\"state\":\"x\"}").is_none());
    assert!(decode_setup_event("{\"stage\":\"software\",\"progress\":\"half\"}").is_none());
    assert!(decode_setup_event("{\"stage\":\"software\",\"detail\":3}").is_none());

    let (stage, state) =
        decode_stream_event("{\"stage\":\"pull_image\",\"state\":\"progress\",\"detail\":\"d\"}")
            .unwrap();
    assert_eq!(stage, "pull_image");
    assert_eq!(state, "progress");
    assert_eq!(decode_stream_event("{\"stage\":\"s\"}").unwrap_err(), "missing field `state`");
    assert_eq!(
        decode_stream_event("{\"stage\":\"s\",\"state\":\"x\",\"detail\":[]}").unwrap_err(),
        "invalid type: field `detail`, expected a string"
    );
}

fn staged(
    stage: &str,
    state: Option<&str>,
    error_body: Option<CliErrorBody>,
    result: Option<u32>,
    event: Option<&'static str>,
) -> EnsureLine<u32, &'static str> {
    EnsureLine::Staged {
        stage: stage.to_string(),
        state: state.map(str::to_string),
        error_body,
        result,
        event,
    }
}

#[test]
fn runtime_ensure_lines() {
    let mut state: StreamState<u32> = StreamState::new();
    assert_eq!(
        runtime_ensure_line(&mut state, staged("software", Some("progress"), None, None, Some("e1"))),
        Some("e1")
    );
    assert_eq!(
        runtime_ensure_line(&mut state, staged("environment", None, None, None, Some("e2"))),
        Some("e2")
    );
    assert_eq!(
        runtime_ensure_line(&mut state, staged("other", Some("progress"), None, None, Some("e3"))),
        None
    );
    assert!(state.outcome.is_none());
    assert_eq!(
        runtime_ensure_line(&mut state, staged("software", Some("permission"), None, None, None)),
        None
    );
    assert_eq!(
        runtime_ensure_line(&mut state, staged("software", Some("error"), None, None, Some("e"))),
        None
    );
    assert!(state.outcome.is_none() && !state.ended);
    assert_eq!(
        runtime_ensure_line(&mut state, staged("complete", Some("done"), None, Some(9), None)),
        None
    );
    assert!(matches!(state.outcome, Some(Ok(Some(9)))) && state.ended);
    // Nothing after the terminal line counts.
    assert_eq!(
        runtime_ensure_line(&mut state, staged("software", Some("progress"), None, None, Some("e4"))),
        None
    );
    runtime_ensure_line(
        &mut state,
        staged("software", Some("error"), Some(body("DOWNLOAD_FAILED", "m")), None, None),
    );
    runtime_ensure_line::<u32, &str>(&mut state, EnsureLine::Bare(4));
    assert!(matches!(stream_result(state), Ok(Some(9))));

    let mut state: StreamState<u32> = StreamState::new();
    runtime_ensure_line(
        &mut state,
        staged("software", Some("error"), Some(body("DOWNLOAD_FAILED", "m")), None, None),
    );
    runtime_ensure_line(&mut state, staged("complete", Some("done"), None, Some(1), None));
    assert!(matches!(stream_result(state), Err(CliError::Cli(b)) if b.code == "DOWNLOAD_FAILED"));

    let mut state: StreamState<u32> = StreamState::new();
    runtime_ensure_line::<u32, &str>(&mut state, EnsureLine::Bare(4));
    assert!(state.ended);
    assert!(matches!(stream_result(state), Ok(Some(4))));

    let mut state: StreamState<u32> = StreamState::new();
    runtime_ensure_line(&mut state, staged("complete", None, None, None, Some("e")));
    assert!(state.outcome.is_none());
    runtime_ensure_line(&mut state, staged("complete", Some("done"), None, None, None));
    assert!(matches!(stream_result(state), Ok(None)));

    let mut state: StreamState<u32> = StreamState::new();
    runtime_ensure_line::<u32, ()>(
        &mut state,
        EnsureLine::Malformed { message: "eof".to_string(), raw: "{".to_string() },
    );
    assert!(!state.ended);
    assert!(matches!(stream_result(state), Err(CliError::Parse { raw, .. }) if raw == "{"));
    assert!(matches!(stream_result::<u32>(StreamState::new()), Err(CliError::NoOutput)));
}

#[test]
fn runtime_ensure_text_lines() {
    let mut state: StreamState<String> = StreamState::new();
    let event = ensure_text_line(
        &mut state,
        "{\"stage\":\"software\",\"state\":\"progress\",\"activity\":\"Installing Podman\",\"progress\":0.4}",
    )
    .unwrap();
    assert_eq!(event.stage, "software");
    assert_eq!(event.activity.as_deref(), Some("Installing Podman"));
    assert!(ensure_text_line(
        &mut state,
        "{\"stage\":\"environment\",\"substage\":\"machine-start\",\"state\":\"waiting\"}"
    )
    .is_some());
    assert!(ensure_text_line(&mut state, "{\"stage\":\"other\",\"state\":\"progress\"}").is_none());
    assert!(ensure_text_line(&mut state, "{\"stage\":\"software\",\"progress\":\"x\"}").is_none());
    assert!(state.outcome.is_none());
    assert!(ensure_text_line(
        &mut state,
        "{\"stage\":\"complete\",\"state\":\"done\",\"result\":{\"schemaVersion\":4}}"
    )
    .is_none());
    assert!(state.ended);
    assert!(ensure_text_line(&mut state, "{\"stage\":\"software\",\"state\":\"progress\"}").is_none());
    assert_eq!(stream_result(state).unwrap().as_deref(), Some("{\"schemaVersion\":4}"));

    let mut state: StreamState<String> = StreamState::new();
    assert!(ensure_text_line(
        &mut state,
        "{\"stage\":\"environment\",\"state\":\"error\",\"error\":{\"code\":\"MACHINE_START_FAILED\",\"message\":\"boom\"}}"
    )
    .is_none());
    assert!(matches!(stream_result(state), Err(CliError::Cli(b)) if b.code == "MACHINE_START_FAILED"));

    let mut state: StreamState<String> = StreamState::new();
    ensure_text_line(&mut state, "{\"stage\":\"environment\",\"state\":\"error\",\"error\":{}}");
    assert!(state.outcome.is_none() && !state.ended);

    let bare = "{\"schemaVersion\":4,\"ready\":true}";
    let mut state: StreamState<String> = StreamState::new();
    assert!(ensure_text_line(&mut state, bare).is_none());
    assert!(state.ended);
    assert_eq!(stream_result(state).unwrap().as_deref(), Some(bare));

    let mut state: StreamState<String> = StreamState::new();
    ensure_text_line(&mut state, "{\"stage\":7}");
    assert!(matches!(stream_result(state), Ok(Some(t)) if t == "{\"stage\":7}"));

    let mut state: StreamState<String> = StreamState::new();
    ensure_text_line(&mut state, "not json");
    assert!(!state.ended);
    assert!(matches!(stream_result(state), Err(CliError::Parse { raw, .. }) if raw == "not json"));

    let mut state: StreamState<String> = StreamState::new();
    ensure_text_line(&mut state, "{\"stage\":\"complete\",\"state\":\"done\"}");
    assert!(matches!(stream_result(state), Ok(None)));
}

#[test]
fn progress_stream_lines() {
    let event = |stage: &str, state: &str, error_body: Option<CliErrorBody>, result: Option<u32>| {
        StreamLine::Event {
            stage: stage.to_string(),
            state: state.to_string(),
            error_body,
            result,
        }
    };
    let mut state: StreamState<u32> = StreamState::new();
    assert!(progress_stream_line(&mut state, event("pull_image", "progress", None, None)));
    assert!(state.outcome.is_none());
    assert!(progress_stream_line(&mut state, event("pull_image", "error", None, None)));
    assert!(state.outcome.is_none() && !state.ended);
    assert!(progress_stream_line(&mut state, event("complete", "done", None, Some(1))));
    assert!(matches!(state.outcome, Some(Ok(Some(1)))) && state.ended);
    // The first terminal line decides; later lines are neither folded nor passed on.
    assert!(!progress_stream_line(&mut state, event("complete", "done", None, Some(2))));
    assert!(!progress_stream_line(
        &mut state,
        event("recreate", "error", Some(body("PORT_IN_USE", "busy")), None),
    ));
    assert!(matches!(stream_result(state), Ok(Some(1))));

    let mut state: StreamState<u32> = StreamState::new();
    assert!(progress_stream_line(
        &mut state,
        event("recreate", "error", Some(body("PORT_IN_USE", "busy")), None),
    ));
    assert!(!progress_stream_line(&mut state, event("complete", "done", None, Some(1))));
    assert!(matches!(stream_result(state), Err(CliError::Cli(b)) if b.message == "busy"));

    let mut state: StreamState<u32> = StreamState::new();
    assert!(!progress_stream_line(
        &mut state,
        StreamLine::Malformed { message: "bad".to_string(), raw: "x".to_string() },
    ));
    assert!(!state.ended);
    assert!(matches!(stream_result(state), Err(CliError::Parse { .. })));
}

#[test]
fn progress_text_lines() {
    let mut state: StreamState<String> = StreamState::new();
    assert!(progress_text_line(
        &mut state,
        "{\"stage\":\"pull_image\",\"state\":\"progress\",\"detail\":\"layer 1/3\"}"
    ));
    assert!(state.outcome.is_none());
    assert!(progress_text_line(
        &mut state,
        "{\"stage\":\"complete\",\"state\":\"done\",\"result\":{\"name\":\"deck\"}}"
    ));
    assert!(state.ended);
    assert!(!progress_text_line(&mut state, "{\"stage\":\"complete\",\"state\":\"done\",\"result\":1}"));
    assert_eq!(stream_result(state).unwrap().as_deref(), Some("{\"name\":\"deck\"}"));

    let mut state: StreamState<String> = StreamState::new();
    assert!(progress_text_line(
        &mut state,
        "{\"stage\":\"recreate\",\"state\":\"error\",\"error\":{\"code\":\"PORT_IN_USE\",\"message\":\"busy\"}}"
    ));
    assert!(matches!(stream_result(state), Err(CliError::Cli(b)) if b.code == "PORT_IN_USE"));

    let mut state: StreamState<String> = StreamState::new();
    assert!(!progress_text_line(&mut state, "{\"stage\":\"pull_image\"}"));
    assert!(matches!(
        stream_result(state),
        Err(CliError::Parse { message, raw }) if message == "missing field `state`" && raw == "{\"stage\":\"pull_image\"}"
    ));

    let mut state: StreamState<String> = StreamState::new();
    assert!(!progress_text_line(&mut state, "oops"));
    assert!(!state.ended);
    assert!(matches!(stream_result(state), Err(CliError::Parse { raw, .. }) if raw == "oops"));
}

fn lines_of(step: &RunStep) -> Vec<String> {
    match step {
        RunStep::Continue { lines } => lines.clone(),
        RunStep::Finish { lines, .. } => lines.clone(),
    }
}

#[test]
fn process_run_decisions() {
    let mut run = CliRun::new();
    let step = run.step(ProcessEvent::Stdout(b"{\"a\":".to_vec()));
    assert!(matches!(step, RunStep::Continue { .. }));
    assert!(lines_of(&step).is_empty());
    let step = run.step(ProcessEvent::Stdout(b"1}\n{\"b\"".to_vec()));
    assert_eq!(lines_of(&step), ["{\"a\":1}"]);
    assert!(matches!(run.step(ProcessEvent::Other), RunStep::Continue { .. }));
    assert!(matches!(run.step(ProcessEvent::Stderr(b"warn".to_vec())), RunStep::Continue { .. }));
    match run.step(ProcessEvent::Terminated) {
        RunStep::Finish { result: Ok(result), lines, kill } => {
            assert_eq!(result.stdout, b"{\"a\":1}\n{\"b\"".to_vec());
            assert_eq!(lines, ["{\"b\""]);
            assert!(!kill);
        }
        _ => panic!("expected a clean finish"),
    }

    let mut run = CliRun::new();
    assert!(matches!(
        run.step(ProcessEvent::TimedOut),
        RunStep::Finish { result: Err(CliError::Timeout), kill: true, .. }
    ));
    assert!(matches!(
        run.step(ProcessEvent::Closed),
        RunStep::Finish { result: Err(CliError::NoOutput), kill: true, .. }
    ));
    assert!(matches!(
        run.step(ProcessEvent::Error("gone".to_string())),
        RunStep::Finish { result: Err(CliError::Spawn { message }), kill: true, .. } if message == "gone"
    ));
    assert!(matches!(
        run.step(ProcessEvent::Stdout(vec![b'x'; STDOUT_LIMIT + 1])),
        RunStep::Finish { result: Err(CliError::OutputLimitExceeded { stream }), kill: true, .. }
            if stream == "stdout"
    ));
    assert!(matches!(
        run.step(ProcessEvent::Stderr(vec![b'x'; STDERR_LIMIT])),
        RunStep::Continue { .. }
    ));
    assert!(matches!(
        run.step(ProcessEvent::Stderr(vec![b'x'])),
        RunStep::Finish { result: Err(CliError::OutputLimitExceeded { stream }), kill: true, .. }
            if stream == "stderr"
    ));
}

#[test]
fn printed_versions_round_trip() {
    for (a, b, c) in [(0u64, 0u64, 0u64), (1, 22, 333), (u64::MAX, 7, 10)] {
        assert_eq!(parse_semver(&format!("v{a}.{b}.{c}")), Some((a, b, c, None)));
        assert_eq!(parse_semver(&format!("{a}.{b}.{c}")), Some((a, b, c, None)));
        for p in ["alpha.2", "rc-1.x", ""] {
            assert_eq!(
                parse_semver(&format!("v{a}.{b}.{c}-{p}")),
                Some((a, b, c, Some(p.to_string())))
            );
        }
    }
}
