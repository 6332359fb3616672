//! A `Job`: an ordered group of task-calls.

use vstd::prelude::*;
use crate::schema::task_call::{clone_task_call, TaskCall};

verus! {

/// A job from a project: its task-calls in declared order, and whether they
/// run in parallel (absent means sequential).
pub struct Job {
    pub tasks: Vec<TaskCall>,
    pub parallel: Option<bool>,
}

impl Job {
    /// Whether this job's task-calls run in parallel.
    pub open spec fn is_parallel(self) -> bool {
        self.parallel == Some(true)
    }
}

/// Copies a job, keeping the execution mode and every task-call.
pub fn clone_job(j: &Job) -> (r: Job)
    ensures
        r.parallel == j.parallel,
        r.is_parallel() == j.is_parallel(),
        r.tasks@.len() == j.tasks@.len(),
        forall|i: int| #![trigger r.tasks@[i]] 0 <= i < r.tasks@.len() ==> r.tasks@[i].task@
            == j.tasks@[i].task@ && r.tasks@[i].call_args() == j.tasks@[i].call_args(),
{
    let mut tasks: Vec<TaskCall> = Vec::new();
    let n = j.tasks.len();
    for i in 0..n
        invariant
            n == j.tasks@.len(),
            tasks@.len() == i,
            forall|k: int| #![trigger tasks@[k]] 0 <= k < i ==> tasks@[k].task@
                == j.tasks@[k].task@ && tasks@[k].call_args() == j.tasks@[k].call_args(),
    {
        tasks.push(clone_task_call(&j.tasks[i]));
    }
    Job { tasks, parallel: j.parallel }
}

} // verus!
