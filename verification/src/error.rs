//! The ways in which an example run can fail.

use vstd::prelude::*;

verus! {

/// Why the agent stopped before finishing a turn.
#[derive(Clone, Debug, PartialEq, Eq)]
pub enum AgentFailure {
    /// The model call failed and could not be recovered.
    Model(String),
    /// A tool failed while executing.
    ToolExecution(String),
    /// The run was cancelled while the agent was working.
    Cancelled,
}

/// The fields of an edit-file payload.
#[derive(Clone, Copy, Debug, PartialEq, Eq, Structural)]
pub enum EditFileField {
    DisplayDescription,
    Path,
    Mode,
}

/// Why a tool payload does not have the shape it was decoded as.
#[derive(Clone, Debug, PartialEq, Eq)]
pub enum DecodeError {
    /// The payload is not a record.
    NotARecord,
    /// The record has no field of this name.
    MissingField(EditFileField),
    /// The field is there, but does not hold text.
    NotText(EditFileField),
    /// The mode is text, but names no known mode.
    UnknownMode(String),
}

/// An error that aborts an example run.
#[derive(Clone, Debug, PartialEq, Eq)]
pub enum ExampleError {
    /// The workspace could not be prepared.
    Setup(String),
    /// A message was pushed to a thread that has terminated.
    ThreadClosed,
    /// The agent aborted a turn.
    Agent(AgentFailure),
    /// Recording one more outcome would exceed the declared maximum.
    TooManyAssertions { max: usize },
    /// An outcome with this id was already recorded in this run.
    DuplicateAssertionId(String),
    /// A tool payload did not match the shape the example expected.
    Decode(DecodeError),
    /// The conversation declared itself finished before any agent turn had
    /// completed, so there is nothing to judge.
    NoCompletedTurn,
}

} // verus!
