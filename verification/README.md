# omnideck_desktop

The verified core of the Omnideck desktop shell, a Tauri app that drives the
`omnideck` CLI and the first-run setup of its Podman runtime.

- `src/` is the library, checked by Verus:
  - `cli_bridge` — each CLI command's arguments, timeout and reply kind; the
    checks on `--version` (contract and minimum version) and on the runtime
    status schema; how single JSON replies and each line of an NDJSON stream
    turn into results, forwarded events or errors.
  - `json` — single members of a reply object as `serde_json` reads them,
    and the verified decoding built on them of the CLI's error envelope, of
    a setup progress event and of a progress-stream line.
  - `process` — bounded collection of a process's output and the decision
    on each process event; `line_buffer` — line reassembly across chunks.
  - `semver` — version parsing and the minimum-version floor.
  - `setup` — the onboarding screens; `bootstrap` — who may call the
    onboarding commands and which actions the last screen allows.
  - `cli_error`, `model`, `text`, `splitting` — errors, reply shapes and
    the string/sequence helpers they rest on.
- `app/` is the Tauri application around it: spawning the sidecar, decoding
  accepted documents (and a reply's error envelope) into their serde types, windows and channels, and the
  floating-point progress bar.
- `tests/` runs the library on concrete values.
