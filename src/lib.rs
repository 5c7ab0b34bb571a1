//! Runs the checks that a flake declares for the current platform and
//! reports their outcome as a JUnit document.
//!
//! The library holds the decisions: which checks exist, how each tool call
//! is shaped and read, what a check's outcome is, and how outcomes become a
//! test suite. Spawning processes, timing and writing files are left to the
//! caller, which hands the results back as plain values.

mod discovery;
mod json;
mod nix;
mod report;
mod run;

pub use discovery::{discover, CheckTarget, DiscoveryError};
pub use json::Json;
pub use nix::{
    build_args, current_system_args, derivations_of, log_args, read_build, read_json, read_text,
    show, show_args, BuildDerivation, BuildMode, ToolError, ToolOutput,
};
pub use report::{millis_fit, render_report, synthesize, test_case};
pub use run::{
    add_max_jobs, check_address, check_options, start_run, Action, CheckCase, CheckRun, Outcome,
    Phase, ResolveError, StartError,
};
