//! Error values carried through the library.
//!
//! Every failure carries the names and counts a caller needs to act on it;
//! rendering them as text is left to the unverified shell.

use vstd::prelude::*;

verus! {

/// An error raised while driving a single external process.
#[derive(Debug)]
pub enum ExecutionError {
    /// The operating system could not create the process for `command`.
    SpawnError { command: String },
}

/// An error raised while loading, validating or resolving a project.
#[derive(Debug)]
pub enum ProjectError {
    /// The project document is not well-formed JSON.
    ParseError { file: String, message: String },
    /// The project document does not match the project schema.
    SchemaViolation,
    /// A job name is absent from the project's jobs table.
    JobNotFound { job: String },
    /// A task name referenced by a task-call is absent from the tasks table.
    TaskNotFound { task: String },
    /// A call site supplied a number of arguments other than the task's
    /// declared arity.
    ArityMismatch { task: String, expected: u8, actual: usize },
    /// Two entries of a jobs or tasks table carry the same name.
    DuplicateName { name: String },
    /// No project file could be detected near the working directory.
    ProjectFileNotFound,
}

} // verus!
