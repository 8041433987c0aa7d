//! Verified core of a memory watchdog that finds and terminates runaway
//! language-server processes: language selection and message tables,
//! byte-size formatting, process matching and top-memory selection, the
//! interactive key-handling state machine, the termination protocol
//! (SIGTERM, grace period, probe, SIGKILL), and the style sheet layer.

pub mod text;
pub mod process;
pub mod bytes;
pub mod i18n;
pub mod monitor;
pub mod theme;
pub mod kill;
