//! List-tasks mode: the names of every task in the project.

use vstd::prelude::*;
use crate::schema::project::Project;

verus! {

/// Returns the names of all tasks in the project, in table order, for the
/// caller to print.
pub fn list_tasks_mode(project: &Project) -> (r: Vec<String>)
    ensures
        r@.len() == project.tasks@.len(),
        forall|i: int| 0 <= i < r@.len() ==> r@[i]@ == project.tasks@[i].0@,
{
    let mut r: Vec<String> = Vec::new();
    let n = project.tasks.len();
    for i in 0..n
        invariant
            n == project.tasks@.len(),
            r@.len() == i,
            forall|j: int| 0 <= j < i ==> r@[j]@ == project.tasks@[j].0@,
    {
        r.push(project.tasks[i].0.clone());
    }
    r
}

} // verus!
