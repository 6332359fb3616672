//! Project-wide settings.

use vstd::prelude::*;

verus! {

/// Settings from a project. When `project_file_as_work_dir` is true, every
/// spawned process's working directory becomes the directory containing the
/// project file instead of the caller's own working directory.
pub struct Settings {
    pub project_file_as_work_dir: Option<bool>,
}

} // verus!
