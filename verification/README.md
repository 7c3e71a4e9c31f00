# Steady Ink core

The verified core of Steady Ink, a screen annotation tool: the rules that decide
what happens to pen, touch and mouse input, the ink history and its page store,
the crash-recovery file format, the surface pool, the performance counters and
the machine-wide autostart logic. Every function under `src/` carries a
contract that Verus proves; the few calls into outside crates (zstd, bincode,
UTF-16 and string conversions of std) stand behind small trusted wrappers whose
contracts are documented where they are declared. The CRC-32 of the record format
is computed in the library and proved against its definition.

Layout:

- `src/` — the library, verified by Verus.
  - `app/` — the application state machine (normal ink, slideshow session,
    suppression of a dismissed show), the idle-toolbar touch drag state machine,
    and the controller that decides what toolbar commands and slideshow detector
    events change and which outside work they leave to the runtime.
  - `autostart.rs` — registry command formatting, parsing and the helper
    process protocol.
  - `ink/` — ink model, operation history, per-page store, surface sizing, the
    surface pool and the sequencing of incremental stroke updates.
  - `input/` — pointer routing, pen timestamp tracking, the touch session that
    turns contacts into palm erases, and Windows pointer message rules.
  - `performance/` — frame and latency statistics, the benchmark workload and
    export file naming.
  - `recovery/` — the recovery record format, binary deltas, the journal store
    and the worker's state machine; `laws.rs` states what a reload gives back.
- `tests/` — executable tests against the library.
- `app/` — the program around the library: logging setup, file system access
  for recovery, the performance export and the benchmark report.
