# ra_killer

A watchdog that keeps memory-hungry language-server processes (by default
`rust-analyzer`) in check: when system memory use crosses a threshold it
finds the target processes and terminates them, either from the command
line or from an interactive terminal interface.

## Layout

- `src/` — the verified library (Verus):
  - `text.rs`: character-sequence helpers (equality, prefix, substring
    search, decimal rendering);
  - `bytes.rs`: byte sizes as "1.50 GB", matching two-decimal float output
    exactly;
  - `process.rs`: process records, matching by name, and the choice of the
    heaviest processes for a cleanup;
  - `monitor.rs`: the interactive monitor's state and key handling;
  - `kill.rs`: the termination protocol for one process, as a step
    function (SIGTERM, a grace period, a probe, SIGKILL if still alive);
  - `i18n.rs`: interface language selection and the message tables;
  - `theme.rs`: the style sheet and its named element styles.
- `app/` — the program around it: argument parsing, sampling the system,
  running the `kill` commands, the clock, logging and drawing the screen.
- `tests/` — tests of the library.
