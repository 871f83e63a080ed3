# Aura Update — verified core

Aura Update is a system health centre for Windows, macOS and Linux: a health
score, package updates, cleanup, startup items, turbo and cooling modes,
snapshots, a scheduled check, telemetry switches, an optional AI assistant and
a remote-control dashboard.

This crate holds its decisions as a library verified with Verus against its
contracts, and a command-line program around it.

- `src/` — the verified library, one module per area: `config` (settings,
  cleanup history, turbo profiles), `health` (scores, sensors, battery),
  `updates` (package manager outputs, install commands), `cleanup`,
  `browsers`, `startup`, `processes`, `cooling`, `power`, `snapshot`,
  `scheduler`, `telemetry`, `maintenance` and `runner` (the command-run state
  machine), `remote` (dashboard routes and tokens), `ai`, `selfupdate`,
  `logging`, `desktop`, with `text` and `shell` as shared utilities.
  Each module's public proof functions state the laws that hold across its
  operations.
- `tests/` — tests of the library on concrete values.
- `app/` — the program: it reads the machine, runs the commands the library
  describes, serves the dashboard, and persists the settings; the Windows
  registry side of the startup items is compiled on Windows only.
