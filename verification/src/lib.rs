//! A declarative functional-test runner core.
//!
//! A suite definition enumerates named checks: run a shell command and
//! compare its exit code and output against expectations, or assert that a
//! filesystem path exists with a given type. The core owns the suite data
//! model, the per-field merging of suite-level defaults into a case's own
//! parameters, the evaluation of each kind of check against what was
//! observed when it ran, and the sequential execution loop with its
//! stop-on-failure policy and aggregate statistics. Everything that touches
//! the outside world (spawning the command, probing the filesystem, loading
//! the suite file, rendering reports) lives with the caller, which hands the
//! core plain observations and receives structured outcomes back.

pub mod args_parser;
pub mod test_execution_environment;
pub mod test_executor;
pub mod test_suite;
