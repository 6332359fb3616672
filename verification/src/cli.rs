//! Command-line parameters as plain data.
//!
//! Argument parsing itself happens outside the library; these types are the
//! already-parsed selection of a project file and a mode.

use vstd::prelude::*;

verus! {

/// The resolved command-line parameters handed to the library.
pub struct CliParameters {
    /// Path to the project file; when absent the caller auto-detects one.
    pub projectfile: Option<String>,
    /// When set, output of child processes is suppressed by the caller.
    pub silent_children: Option<bool>,
    /// The selected mode of operation.
    pub mode: Mode,
}

/// The mode of operation selected on the command line.
pub enum Mode {
    /// Check whether the project document matches the project schema.
    Validate,
    /// Execute a job from the project.
    Run { job: String },
    /// Execute a single task from the project.
    RunTask { task: String, arguments: Vec<String> },
    /// List all jobs in the project.
    ListJobs,
    /// List all tasks in the project.
    ListTasks,
}

} // verus!
