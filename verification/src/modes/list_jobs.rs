//! List-jobs mode: the names of every job in the project.

use vstd::prelude::*;
use crate::schema::project::Project;

verus! {

/// Returns the names of all jobs in the project, in table order, for the
/// caller to print.
pub fn list_jobs_mode(project: &Project) -> (r: Vec<String>)
    ensures
        r@.len() == project.jobs@.len(),
        forall|i: int| 0 <= i < r@.len() ==> r@[i]@ == project.jobs@[i].0@,
{
    let mut r: Vec<String> = Vec::new();
    let n = project.jobs.len();
    for i in 0..n
        invariant
            n == project.jobs@.len(),
            r@.len() == i,
            forall|j: int| 0 <= j < i ==> r@[j]@ == project.jobs@[j].0@,
    {
        r.push(project.jobs[i].0.clone());
    }
    r
}

} // verus!
