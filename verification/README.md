# cerynth

The CerynthOS control plane: a daemon that drives a sched_ext scheduler, a
command-line client, an adaptive scheduling policy with safety guardrails,
and telemetry collection.

- `src/` is the verified library (Verus): the IPC messages and their
  framing, the daemon's request handling and its backends' decisions, the
  adaptation controller, guardrails, validation and rules-based policy, the
  scheduler's dispatch order, the `/proc` parsers, and the replay report.
- `app/` is the rest: the daemon's socket server, the process control of
  the scheduler, file and JSON/TOML I/O, the command-line tools, and the
  floating-point scoring of workloads.
- `tests/` exercises the library.
