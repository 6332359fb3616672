//! A `TaskCall`: one reference to a task plus its call-site arguments.

use vstd::prelude::*;
use crate::util::clone_opt_string_vec;

verus! {

/// A task-call from a job: the name of a task and the ordered additional
/// arguments this call site supplies.
pub struct TaskCall {
    pub task: String,
    pub args: Option<Vec<String>>,
}

impl TaskCall {
    /// The call-site arguments, with an absent list meaning no arguments.
    pub open spec fn call_args(self) -> Seq<Seq<char>> {
        match self.args {
            Some(v) => v.deep_view(),
            None => Seq::empty(),
        }
    }

    /// Builds the task-call for a directly invoked task: the single-task
    /// entry point shares this constructor with stored task-calls, so both
    /// paths run through the same arity check and command builder.
    pub fn from_arguments(taskname: &String, arguments: Vec<String>) -> (r: TaskCall)
        ensures
            r.task@ == taskname@,
            r.args == Some(arguments),
            r.call_args() == arguments.deep_view(),
    {
        TaskCall { task: taskname.clone(), args: Some(arguments) }
    }
}

/// Copies a task-call, keeping the referenced name and the call-site
/// arguments.
pub fn clone_task_call(tc: &TaskCall) -> (r: TaskCall)
    ensures
        r.task@ == tc.task@,
        r.call_args() == tc.call_args(),
{
    let r = TaskCall { task: tc.task.clone(), args: clone_opt_string_vec(&tc.args) };
    proof {
        assert(r.call_args() =~= tc.call_args());
    }
    r
}

} // verus!
