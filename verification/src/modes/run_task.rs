//! Run-task mode: execute a single task with directly supplied arguments.
//!
//! A single-task invocation is a job of exactly one task-call: the
//! supplied arguments are wrapped into a task-call by the shared
//! constructor, pass the same arity check, and run through the same
//! executor as a stored task-call would.

use vstd::prelude::*;
use crate::errors::{ExecutionError, ProjectError};
use crate::schema::project::{find_index_by_name, Project};
use crate::schema::task_call::TaskCall;
use crate::task_executor::{
    execution_string_of, output_delivery, sink_view, ExecutorState, SinkMessage, TaskExecutor,
};
use crate::util::work_dir_override;

verus! {

/// Whether an executor is the one built for invoking the named task with
/// these arguments directly.
pub open spec fn single_executor_matches(
    p: Project,
    projectfile: Seq<char>,
    taskname: Seq<char>,
    arguments: Seq<Seq<char>>,
    ex: TaskExecutor,
) -> bool {
    &&& ex.spec_state() == ExecutorState::Idle
    &&& p.spec_task(taskname) is Some
    &&& ({
        let t = p.spec_task(taskname).unwrap();
        &&& ex.task.command@ == t.command@
        &&& ex.invocation.program@ == t.command@
        &&& ex.invocation.argv.deep_view() == t.fixed_args() + arguments
        &&& ex.execution_string@ == execution_string_of(t.command@, t.fixed_args() + arguments)
    })
    &&& (ex.invocation.workdir_override is Some <==> (p.settings matches Some(s)
        && s.project_file_as_work_dir == Some(true)))
    &&& (ex.invocation.workdir_override matches Some(w) ==> w@ == projectfile)
}

/// What a failed single-task resolution reports: the missing task, or the
/// arity mismatch between the task's declared arity and the supplied
/// argument count.
pub open spec fn task_resolution_err(
    p: Project,
    taskname: Seq<char>,
    arguments: Seq<Seq<char>>,
    e: ProjectError,
) -> bool {
    ||| (e matches ProjectError::TaskNotFound { task } && task@ == taskname && p.spec_task(taskname)
        is None)
    ||| (p.spec_task(taskname) is Some && arguments.len() != p.spec_task(taskname).unwrap().arity()
        && (e matches ProjectError::ArityMismatch { task, expected, actual } && task@ == taskname
        && expected as nat == p.spec_task(taskname).unwrap().arity() && actual as nat
        == arguments.len()))
}

/// Builds the executor for a direct invocation of the named task: looks
/// the task up, checks that exactly the declared number of arguments was
/// supplied, synthesizes the task-call and runs it through the command
/// builder.
pub fn build_executor(
    project: &Project,
    taskname: &String,
    arguments: Vec<String>,
    work_dir: Option<String>,
) -> (r: Result<TaskExecutor, ProjectError>)
    requires
        work_dir is Some <==> (project.settings matches Some(s) && s.project_file_as_work_dir
            == Some(true)),
    ensures
        r is Ok <==> (project.spec_task(taskname@) is Some && arguments.deep_view().len()
            == project.spec_task(taskname@).unwrap().arity()),
        r matches Ok(ex) ==> ({
            &&& ex.spec_state() == ExecutorState::Idle
            &&& project.spec_task(taskname@) is Some
            &&& ex.task.command@ == project.spec_task(taskname@).unwrap().command@
            &&& ex.invocation.program@ == project.spec_task(taskname@).unwrap().command@
            &&& ex.invocation.argv.deep_view() == project.spec_task(taskname@).unwrap().fixed_args()
                + arguments.deep_view()
            &&& ex.execution_string@ == execution_string_of(
                project.spec_task(taskname@).unwrap().command@,
                project.spec_task(taskname@).unwrap().fixed_args() + arguments.deep_view(),
            )
            &&& (ex.invocation.workdir_override is Some <==> work_dir is Some)
            &&& (ex.invocation.workdir_override matches Some(w) ==> work_dir matches Some(d) && w@
                == d@)
        }),
        r matches Err(e) ==> task_resolution_err(
            *project,
            taskname@,
            arguments.deep_view(),
            e,
        ),
{
    let tidx = match find_index_by_name(&project.tasks, taskname) {
        Some(t) => t,
        None => {
            return Err(ProjectError::TaskNotFound { task: taskname.clone() });
        },
    };
    let task = &project.tasks[tidx].1;
    match task.required_call_args {
        Some(needed) => {
            if arguments.len() != needed as usize {
                return Err(
                    ProjectError::ArityMismatch {
                        task: taskname.clone(),
                        expected: needed,
                        actual: arguments.len(),
                    },
                );
            }
        },
        None => {
            if arguments.len() > 0 {
                return Err(
                    ProjectError::ArityMismatch {
                        task: taskname.clone(),
                        expected: 0,
                        actual: arguments.len(),
                    },
                );
            }
        },
    }
    let taskcall = TaskCall::from_arguments(taskname, arguments);
    TaskExecutor::new(task, &taskcall, &work_dir)
}

/// One run of one directly invoked task.
pub struct TaskExecution {
    pub taskname: String,
    pub task_executor: TaskExecutor,
}

impl TaskExecution {
    /// Resolves a direct task invocation: the project's working-directory
    /// override plus [`build_executor`], with no process spawned yet.
    pub fn new(
        project: &Project,
        projectfile: &String,
        taskname: &String,
        arguments: Vec<String>,
    ) -> (r: Result<TaskExecution, ProjectError>)
        ensures
            r is Ok <==> (project.spec_task(taskname@) is Some && arguments.deep_view().len()
                == project.spec_task(taskname@).unwrap().arity()),
            r matches Ok(te) ==> te.taskname@ == taskname@ && single_executor_matches(
                *project,
                projectfile@,
                taskname@,
                arguments.deep_view(),
                te.task_executor,
            ),
            r matches Err(e) ==> task_resolution_err(
                *project,
                taskname@,
                arguments.deep_view(),
                e,
            ),
    {
        let work_dir = work_dir_override(&project.settings, projectfile);
        match build_executor(project, taskname, arguments, work_dir) {
            Ok(task_executor) => Ok(TaskExecution { taskname: taskname.clone(), task_executor }),
            Err(e) => Err(e),
        }
    }

    /// Records the spawn attempt of the task's process.
    pub fn spawned(&mut self, spawned: bool) -> (r: Result<(), ExecutionError>)
        requires
            old(self).task_executor.spec_state() == ExecutorState::Idle,
        ensures
            final(self).taskname == old(self).taskname,
            final(self).task_executor.same_binding(old(self).task_executor),
            spawned ==> final(self).task_executor.spec_state() == ExecutorState::Running && r is Ok,
            !spawned ==> ({
                &&& final(self).task_executor.spec_state() == ExecutorState::Failed
                &&& r matches Err(e) && e matches ExecutionError::SpawnError { command }
                    && command@ == old(self).task_executor.task.command@
            }),
    {
        self.task_executor.execute(spawned)
    }

    /// Records the observed termination of the task's process, handing
    /// back its complete tagged output.
    pub fn finished(
        &mut self,
        exit_success: bool,
        out_lines: &Vec<String>,
        err_lines: &Vec<String>,
    ) -> (r: Vec<SinkMessage>)
        requires
            old(self).task_executor.spec_state() == ExecutorState::Running,
        ensures
            final(self).taskname == old(self).taskname,
            final(self).task_executor.same_binding(old(self).task_executor),
            final(self).task_executor.spec_state() == (ExecutorState::Completed {
                success: exit_success,
            }),
            sink_view(r@) == output_delivery(
                old(self).task_executor.execution_string@,
                out_lines.deep_view(),
                err_lines.deep_view(),
            ),
    {
        self.task_executor.wait(exit_success, out_lines, err_lines)
    }

    /// Whether the task's process completed successfully.
    pub fn succeeded(&self) -> (r: bool)
        ensures
            r == (self.task_executor.spec_state() == (ExecutorState::Completed { success: true })),
    {
        match self.task_executor.current_state() {
            ExecutorState::Completed { success: true } => true,
            _ => false,
        }
    }
}

/// Executes the run-task mode: resolves a direct invocation of the named
/// task into a fresh execution for the caller to drive.
pub fn run_task_mode(
    project: &Project,
    projectfile: &String,
    taskname: &String,
    arguments: Vec<String>,
) -> (r: Result<TaskExecution, ProjectError>)
    ensures
        r is Ok <==> (project.spec_task(taskname@) is Some && arguments.deep_view().len()
            == project.spec_task(taskname@).unwrap().arity()),
        r matches Ok(te) ==> te.taskname@ == taskname@ && single_executor_matches(
            *project,
            projectfile@,
            taskname@,
            arguments.deep_view(),
            te.task_executor,
        ),
        r matches Err(e) ==> task_resolution_err(*project, taskname@, arguments.deep_view(), e),
{
    TaskExecution::new(project, projectfile, taskname, arguments)
}

} // verus!
