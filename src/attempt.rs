use crate::tools::Tool;
use vstd::prelude::*;
use vstd::string::*;

verus! {

/// How one run of a tool ended, as observed by whoever ran it.
#[derive(Debug)]
pub enum RunOutcome {
    /// The process could not be started (not found, or another OS error);
    /// `reason` describes the error.
    SpawnFailed { reason: String },
    /// The process ran to completion; `success` tells whether its exit status
    /// was a success, and `stderr` holds what it wrote to standard error.
    Exited { success: bool, stderr: Vec<u8> },
}

/// The mathematical model of a [`RunOutcome`].
pub ghost enum OutcomeModel {
    SpawnFailed { reason: Seq<char> },
    Exited { success: bool, stderr: Seq<u8> },
}

impl View for RunOutcome {
    type V = OutcomeModel;

    open spec fn view(&self) -> OutcomeModel {
        match self {
            RunOutcome::SpawnFailed { reason } => OutcomeModel::SpawnFailed { reason: reason@ },
            RunOutcome::Exited { success, stderr } => OutcomeModel::Exited {
                success: *success,
                stderr: stderr@,
            },
        }
    }
}

/// Why one tool did not release the modifiers.
#[derive(Debug)]
pub enum AttemptError {
    /// The tool could not be started.
    SpawnFailure { tool: Tool, reason: String },
    /// The tool ran and exited with a failure status; `stderr` is the text
    /// it wrote to standard error.
    ExecutionFailure { tool: Tool, stderr: String },
}

/// The mathematical model of an [`AttemptError`].
pub ghost enum AttemptErrorModel {
    SpawnFailure { tool: Tool, reason: Seq<char> },
    ExecutionFailure { tool: Tool, stderr: Seq<char> },
}

impl View for AttemptError {
    type V = AttemptErrorModel;

    open spec fn view(&self) -> AttemptErrorModel {
        match self {
            AttemptError::SpawnFailure { tool, reason } => AttemptErrorModel::SpawnFailure {
                tool: *tool,
                reason: reason@,
            },
            AttemptError::ExecutionFailure { tool, stderr } => AttemptErrorModel::ExecutionFailure {
                tool: *tool,
                stderr: stderr@,
            },
        }
    }
}

/// The text that standard error's bytes decode to, invalid UTF-8 sequences
/// replaced by U+FFFD.
pub uninterp spec fn lossy_utf8(b: Seq<u8>) -> Seq<char>;

/// Relies on `String::from_utf8_lossy`, to turn what a tool wrote to
/// standard error into text.
#[verifier::external_body]
fn decode_stderr(b: &Vec<u8>) -> (r: String)
    ensures
        r@ == lossy_utf8(b@),
{
    String::from_utf8_lossy(b.as_slice()).into_owned()
}

/// What one run of `tool` amounts to: `None` when it released the modifiers,
/// else the error it gave.
pub open spec fn attempt_model(tool: Tool, outcome: OutcomeModel) -> Option<AttemptErrorModel> {
    match outcome {
        OutcomeModel::SpawnFailed { reason } => Some(
            AttemptErrorModel::SpawnFailure { tool, reason },
        ),
        OutcomeModel::Exited { success, stderr } => if success {
            None
        } else {
            Some(AttemptErrorModel::ExecutionFailure { tool, stderr: lossy_utf8(stderr) })
        },
    }
}

/// The model of a judged run: `Ok` exactly where `attempt_model` is `None`.
pub open spec fn judged_as(r: Result<(), AttemptError>, expected: Option<AttemptErrorModel>) -> bool {
    match r {
        Ok(()) => expected is None,
        Err(e) => expected == Some(e@),
    }
}

/// The error of a run of `tool` that exited with a failure status after
/// writing `stderr_text` to standard error.
pub fn execution_failure(tool: Tool, stderr_text: String) -> (r: AttemptError)
    ensures
        r@ == (AttemptErrorModel::ExecutionFailure { tool, stderr: stderr_text@ }),
{
    AttemptError::ExecutionFailure { tool, stderr: stderr_text }
}

/// Judges one run of `tool`: success exactly when the process ran and
/// exited with a success status.
pub fn judge_outcome(tool: Tool, outcome: RunOutcome) -> (r: Result<(), AttemptError>)
    ensures
        judged_as(r, attempt_model(tool, outcome@)),
{
    match outcome {
        RunOutcome::SpawnFailed { reason } => Err(AttemptError::SpawnFailure { tool, reason }),
        RunOutcome::Exited { success, stderr } => {
            if success {
                Ok(())
            } else {
                let text = decode_stderr(&stderr);
                Err(execution_failure(tool, text))
            }
        },
    }
}

impl AttemptError {
    /// The diagnostic text of the error.
    pub open spec fn message_spec(self) -> Seq<char> {
        match self {
            AttemptError::SpawnFailure { tool, reason } => tool.name_spec() + " failed: "@ + reason@,
            AttemptError::ExecutionFailure { tool, stderr } => tool.name_spec() + " error: "@ + stderr@,
        }
    }

    /// The diagnostic text of the error: `<tool> failed: <reason>` when the
    /// tool could not be started, `<tool> error: <stderr>` when it failed.
    pub fn message(&self) -> (r: String)
        ensures
            r@ == self.message_spec(),
    {
        match self {
            AttemptError::SpawnFailure { tool, reason } => {
                let mut m = String::from_str(tool.name());
                m.append(" failed: ");
                m.append(reason.as_str());
                m
            },
            AttemptError::ExecutionFailure { tool, stderr } => {
                let mut m = String::from_str(tool.name());
                m.append(" error: ");
                m.append(stderr.as_str());
                m
            },
        }
    }
}

} // verus!
