//! Releasing held keyboard modifiers through one of two input-injection tools.
//!
//! The library decides which tool to run, with which arguments, and what the
//! result of each run means; running the processes is left to the caller.
pub mod attempt;
pub mod release;
pub mod tools;

pub use attempt::{
    execution_failure, judge_outcome, AttemptError, RunOutcome,
};
pub use release::{Action, Invocation, ModifierRelease, ReleaseError};
pub use tools::Tool;
