# http_probe

A command-line HTTP(S) latency prober whose logic is verified with Verus.

Each attempt is a cold probe (fresh DNS, TCP and TLS); the run reports
per-phase latency statistics over the successful (2xx) attempts and counts
failures by HTTP status and by transport failure kind.

## Layout

- `src/` — the verified library:
  - `cli.rs` — options, their validation and its error messages;
  - `probe.rs` — configuring a curl handle, reading its measurements, splitting
    cumulative timestamps into phases, classifying outcomes;
  - `run.rs` — the decisions of a run (next attempt, verbose line, pause,
    final summary);
  - `stats.rs` — nearest-rank statistics and the run summary, with their laws;
  - `output.rs` — the report and the verbose lines, as text;
  - `model.rs`, `error.rs`, `text.rs`, `ordered.rs` — records, errors, decimal
    rendering and padding, ascending key order of maps.
- `app/` — the executable: argument parsing, transfers, pauses, printing, and
  the floating-point rendering of means, medians and the failure rate.
- `tests/` — tests of the library.
