# daemon_core

The verified core of Daemon OS, a monitoring agent for a workstation or a
server. The library (`src/`) holds the logic, each function with a Verus
contract:

- `events`, `event_engine`: the lifecycle of operational events and the engine
  that advances it with time;
- `event_store`, `history`, `config`: what the stores do to the lists they
  keep, and when history is written;
- `intelligence`: the health assessment of CPU, memory and disk, and the
  bloom-filter threat shield (`intelligence/bloom.rs`, over the `bloomfilter`
  crate);
- `memory`: what the history of assessments says (recoveries, recurring
  pressure, notable moments newest first);
- `security`: the posture score from the running processes;
- `agent`, `service`, `api`: the decisions of the agent, of its loop and of
  its HTTP API;
- `text`, `ordering`, `clock`, `telemetry`: text helpers, stable ordering, the
  system clock, and disk totals.

Floating-point readings (CPU usage, thresholds, confidence scores) are carried
in the library as their IEEE-754 bit patterns; the comparisons and the
formatting that need floating point are done in `app/`.

`app/` is the program around the library: reading the machine with
`sysinfo`, the JSON files with `serde_json`, the HTTP API with `axum`, the
Windows service, and the `dioxus` dashboard. Run it with `--console` for the
agent loop, `--api` for the HTTP API, and without arguments as a Windows
service.
