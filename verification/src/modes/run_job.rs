//! Run-job mode: resolve a job's task-calls into executors and drive them
//! sequentially or in parallel.
//!
//! Resolution runs before any process is spawned: every task-call is
//! looked up and its arity checked, and any unresolved name aborts the
//! whole job with every executor still idle. The caller then drives the
//! run through the transition methods here — spawning and waiting happen
//! outside, and each observed outcome is fed back in. Sequential runs are
//! fail-fast: the first failing task freezes the cursor, so no later task
//! is ever spawned. Parallel runs spawn every task before polling, record
//! each task's outcome independently, and fail exactly when some task
//! failed.

use vstd::prelude::*;
use crate::errors::{ExecutionError, ProjectError};
use crate::schema::job::{clone_job, Job};
use crate::schema::project::{find_index_by_name, Project};
use crate::schema::task_call::TaskCall;
use crate::task_executor::{
    output_delivery, sink_view, ExecutorState, SinkMessage, TaskExecutor,
};
use crate::util::work_dir_override;

verus! {

/// Whether the task name referenced by a task-call exists in the project.
pub open spec fn call_resolves(p: Project, tc: TaskCall) -> bool {
    p.spec_task(tc.task@) is Some
}

/// Whether a task-call supplies exactly the arity its task declares.
pub open spec fn call_arity_ok(p: Project, tc: TaskCall) -> bool {
    &&& p.spec_task(tc.task@) is Some
    &&& tc.call_args().len() == p.spec_task(tc.task@).unwrap().arity()
}

/// Whether every task-call of a job resolves with a matching arity.
pub open spec fn job_resolvable(p: Project, j: Job) -> bool {
    forall|i: int| #![trigger j.tasks@[i]] 0 <= i < j.tasks@.len() ==> call_resolves(p, j.tasks@[i])
        && call_arity_ok(p, j.tasks@[i])
}

/// A terminal state that counts as a task failure: either the
/// process completed unsuccessfully or it could not be spawned at all.
pub open spec fn terminal_failure(s: ExecutorState) -> bool {
    s == ExecutorState::Failed || s == (ExecutorState::Completed { success: false })
}

/// Whether an executor is the one resolution builds for a task-call:
/// idle, bound to the named task, with the invocation and execution string
/// the command builder forms from the task and the call, and carrying the
/// project's working-directory override.
pub open spec fn executor_matches(
    p: Project,
    projectfile: Seq<char>,
    tc: TaskCall,
    ex: TaskExecutor,
) -> bool {
    &&& ex.spec_state() == ExecutorState::Idle
    &&& p.spec_task(tc.task@) is Some
    &&& ({
        let t = p.spec_task(tc.task@).unwrap();
        &&& ex.task.command@ == t.command@
        &&& ex.invocation.program@ == t.command@
        &&& ex.invocation.argv.deep_view() == t.fixed_args() + tc.call_args()
        &&& ex.execution_string@ == crate::task_executor::execution_string_of(
            t.command@,
            t.fixed_args() + tc.call_args(),
        )
    })
    &&& (ex.invocation.workdir_override is Some <==> (p.settings matches Some(s)
        && s.project_file_as_work_dir == Some(true)))
    &&& (ex.invocation.workdir_override matches Some(w) ==> w@ == projectfile)
}

/// What a successful resolution hands back: a fresh execution of the named
/// job, nothing spawned yet, one matching executor per task-call.
pub open spec fn job_resolution_ok(
    p: Project,
    projectfile: Seq<char>,
    jobname: Seq<char>,
    je: JobExecution,
) -> bool {
    &&& p.spec_job(jobname) is Some
    &&& ({
        let j = p.spec_job(jobname).unwrap();
        &&& je.jobname@ == jobname
        &&& je.next == 0
        &&& je.failed is None
        &&& je.seq_wf() && je.par_wf()
        &&& je.job.is_parallel() == j.is_parallel()
        &&& je.job.tasks@.len() == j.tasks@.len()
        &&& je.task_executors@.len() == j.tasks@.len()
        &&& forall|i: int| #![trigger je.task_executors@[i]] 0 <= i < j.tasks@.len()
            ==> executor_matches(p, projectfile, j.tasks@[i], je.task_executors@[i])
    })
}

/// What a failed resolution reports: the missing job, or — for the first
/// task-call that does not resolve — the missing task or the arity
/// mismatch, before any executor exists.
pub open spec fn job_resolution_err(p: Project, jobname: Seq<char>, e: ProjectError) -> bool {
    ||| (e matches ProjectError::JobNotFound { job } && job@ == jobname && p.spec_job(jobname)
        is None)
    ||| (p.spec_job(jobname) is Some && ({
        let j = p.spec_job(jobname).unwrap();
        exists|i: int|
            {
                &&& 0 <= i < j.tasks@.len()
                &&& forall|k: int| #![trigger j.tasks@[k]] 0 <= k < i ==> call_resolves(
                    p,
                    j.tasks@[k],
                ) && call_arity_ok(p, j.tasks@[k])
                &&& if !call_resolves(p, #[trigger] j.tasks@[i]) {
                    e matches ProjectError::TaskNotFound { task } && task@ == j.tasks@[i].task@
                } else {
                    &&& !call_arity_ok(p, j.tasks@[i])
                    &&& (e matches ProjectError::ArityMismatch { task, expected, actual } && task@
                        == p.spec_task(j.tasks@[i].task@).unwrap().command@ && expected as nat
                        == p.spec_task(j.tasks@[i].task@).unwrap().arity() && actual as nat
                        == j.tasks@[i].call_args().len())
                }
            }
    }))
}

/// One run of one job: the resolved executors in task-call order and the
/// driving state — the spawn cursor and the first recorded failure.
pub struct JobExecution {
    pub jobname: String,
    pub job: Job,
    pub task_executors: Vec<TaskExecutor>,
    pub next: usize,
    pub failed: Option<usize>,
}

impl JobExecution {
    /// The number of task-calls in this run.
    pub open spec fn n(self) -> int {
        self.task_executors@.len() as int
    }

    /// The lifecycle state of the executor at position `i`.
    pub open spec fn exec_state(self, i: int) -> ExecutorState {
        self.task_executors@[i].spec_state()
    }

    /// The driving invariant of a sequential run: every task before the
    /// cursor completed successfully, every task after it is untouched,
    /// and a recorded failure freezes the cursor at the failed task.
    pub open spec fn seq_wf(self) -> bool {
        &&& self.next as int <= self.n()
        &&& forall|j: int| #![trigger self.task_executors@[j]] 0 <= j < self.next as int
            ==> self.exec_state(j) == (ExecutorState::Completed { success: true })
        &&& forall|j: int| #![trigger self.task_executors@[j]] (self.next as int) < j < self.n()
            ==> self.exec_state(j) == ExecutorState::Idle
        &&& match self.failed {
            None => true,
            Some(f) => f == self.next && (f as int) < self.n() && terminal_failure(
                self.exec_state(f as int),
            ),
        }
    }

    /// The driving invariant of a parallel run: every task before the
    /// cursor has had its spawn attempted, every task after it is
    /// untouched, and `failed` records a detected failure exactly when
    /// one exists.
    pub open spec fn par_wf(self) -> bool {
        &&& self.next as int <= self.n()
        &&& forall|j: int| #![trigger self.task_executors@[j]] 0 <= j < self.next as int
            ==> self.exec_state(j) != ExecutorState::Idle
        &&& forall|j: int| #![trigger self.task_executors@[j]] (self.next as int) <= j < self.n()
            ==> self.exec_state(j) == ExecutorState::Idle
        &&& match self.failed {
            None => forall|j: int| #![trigger self.task_executors@[j]] 0 <= j < self.n()
                ==> !terminal_failure(self.exec_state(j)),
            Some(f) => (f as int) < self.next as int && terminal_failure(self.exec_state(f as int)),
        }
    }

    /// Resolves a job by name: looks up every referenced task, checks
    /// every call's arity and builds one executor per task-call. Any
    /// unresolved name or arity mismatch aborts the job here, before any
    /// process is spawned.
    pub fn new(project: &Project, projectfile: &String, jobname: &String) -> (r: Result<
        JobExecution,
        ProjectError,
    >)
        ensures
            r is Ok <==> (project.spec_job(jobname@) is Some && job_resolvable(
                *project,
                project.spec_job(jobname@).unwrap(),
            )),
            r matches Ok(je) ==> job_resolution_ok(*project, projectfile@, jobname@, je),
            r matches Err(e) ==> job_resolution_err(*project, jobname@, e),
    {
        let work_dir = work_dir_override(&project.settings, projectfile);
        let jidx = match find_index_by_name(&project.jobs, jobname) {
            Some(i) => i,
            None => {
                return Err(ProjectError::JobNotFound { job: jobname.clone() });
            },
        };
        let job = clone_job(&project.jobs[jidx].1);
        let ghost sj = project.spec_job(jobname@).unwrap();
        let mut task_executors: Vec<TaskExecutor> = Vec::new();
        let n = job.tasks.len();
        for i in 0..n
            invariant
                n == job.tasks@.len(),
                n == sj.tasks@.len(),
                project.spec_job(jobname@) == Some(sj),
                job.is_parallel() == sj.is_parallel(),
                forall|k: int| #![trigger job.tasks@[k]] 0 <= k < n ==> job.tasks@[k].task@
                    == sj.tasks@[k].task@ && job.tasks@[k].call_args() == sj.tasks@[k].call_args(),
                work_dir is Some <==> (project.settings matches Some(s)
                    && s.project_file_as_work_dir == Some(true)),
                work_dir matches Some(w) ==> w@ == projectfile@,
                task_executors@.len() == i,
                forall|k: int| #![trigger sj.tasks@[k]] 0 <= k < i ==> call_resolves(
                    *project,
                    sj.tasks@[k],
                ) && call_arity_ok(*project, sj.tasks@[k]),
                forall|k: int| #![trigger task_executors@[k]] 0 <= k < i ==> executor_matches(
                    *project,
                    projectfile@,
                    sj.tasks@[k],
                    task_executors@[k],
                ),
        {
            let tidx = match find_index_by_name(&project.tasks, &job.tasks[i].task) {
                Some(t) => t,
                None => {
                    return Err(ProjectError::TaskNotFound { task: job.tasks[i].task.clone() });
                },
            };
            match TaskExecutor::new(&project.tasks[tidx].1, &job.tasks[i], &work_dir) {
                Ok(ex) => {
                    task_executors.push(ex);
                },
                Err(e) => {
                    return Err(e);
                },
            }
        }
        Ok(JobExecution { jobname: jobname.clone(), job, task_executors, next: 0, failed: None })
    }

    /// The position of the next task to run sequentially: the cursor,
    /// unless a failure was recorded or every task has completed.
    pub fn seq_current(&self) -> (r: Option<usize>)
        ensures
            r == (if self.failed is None && (self.next as int) < self.n() {
                Some(self.next)
            } else {
                None::<usize>
            }),
    {
        if self.failed.is_none() && self.next < self.task_executors.len() {
            Some(self.next)
        } else {
            None
        }
    }

    /// Records the spawn attempt of the current sequential task. A failed
    /// spawn is recorded as a failure of the current task, freezing the run.
    pub fn seq_spawned(&mut self, spawned: bool) -> (r: Result<(), ExecutionError>)
        requires
            old(self).seq_wf(),
            old(self).failed is None,
            (old(self).next as int) < old(self).n(),
            old(self).exec_state(old(self).next as int) == ExecutorState::Idle,
        ensures
            final(self).seq_wf(),
            final(self).jobname == old(self).jobname,
            final(self).job == old(self).job,
            final(self).next == old(self).next,
            final(self).n() == old(self).n(),
            forall|j: int| 0 <= j < old(self).n() && j != old(self).next as int ==> final(self).task_executors@[j] == old(self).task_executors@[j],
            final(self).task_executors@[old(self).next as int].same_binding(
                old(self).task_executors@[old(self).next as int],
            ),
            spawned ==> ({
                &&& r is Ok
                &&& final(self).failed is None
                &&& final(self).exec_state(old(self).next as int) == ExecutorState::Running
            }),
            !spawned ==> ({
                &&& r matches Err(e) && e matches ExecutionError::SpawnError { command }
                    && command@ == old(self).task_executors@[old(self).next as int].task.command@
                &&& final(self).failed == Some(old(self).next)
                &&& final(self).exec_state(old(self).next as int) == ExecutorState::Failed
            }),
    {
        let i = self.next;
        proof {
            assert(old(self).exec_state(i as int) == ExecutorState::Idle);
        }
        let mut ex = self.task_executors.remove(i);
        let r = ex.execute(spawned);
        self.task_executors.insert(i, ex);
        proof {
            assert(self.task_executors@ =~= old(self).task_executors@.update(i as int, ex));
        }
        if !spawned {
            self.failed = Some(i);
        }
        r
    }

    /// Records the observed termination of the current sequential task,
    /// handing back its complete tagged output. Success moves the cursor
    /// to the next task; failure freezes the run at this one, so no later
    /// task is ever spawned.
    pub fn seq_finished(
        &mut self,
        exit_success: bool,
        out_lines: &Vec<String>,
        err_lines: &Vec<String>,
    ) -> (r: Vec<SinkMessage>)
        requires
            old(self).seq_wf(),
            old(self).failed is None,
            (old(self).next as int) < old(self).n(),
            old(self).exec_state(old(self).next as int) == ExecutorState::Running,
        ensures
            final(self).seq_wf(),
            final(self).jobname == old(self).jobname,
            final(self).job == old(self).job,
            final(self).n() == old(self).n(),
            forall|j: int| 0 <= j < old(self).n() && j != old(self).next as int ==> final(self).task_executors@[j] == old(self).task_executors@[j],
            final(self).task_executors@[old(self).next as int].same_binding(
                old(self).task_executors@[old(self).next as int],
            ),
            final(self).exec_state(old(self).next as int) == (ExecutorState::Completed {
                success: exit_success,
            }),
            sink_view(r@) == output_delivery(
                old(self).task_executors@[old(self).next as int].execution_string@,
                out_lines.deep_view(),
                err_lines.deep_view(),
            ),
            exit_success ==> final(self).next == old(self).next + 1 && final(self).failed is None,
            !exit_success ==> final(self).next == old(self).next && final(self).failed == Some(
                old(self).next,
            ),
    {
        let i = self.next;
        let n = self.task_executors.len();
        proof {
            assert(i < n);
            assert(old(self).exec_state(i as int) == ExecutorState::Running);
        }
        let mut ex = self.task_executors.remove(i);
        let msgs = ex.wait(exit_success, out_lines, err_lines);
        self.task_executors.insert(i, ex);
        proof {
            assert(self.task_executors@ =~= old(self).task_executors@.update(i as int, ex));
        }
        if exit_success {
            self.next = i + 1;
        } else {
            self.failed = Some(i);
        }
        msgs
    }

    /// The position of the next task a parallel run spawns: the cursor,
    /// unless a spawn already failed or every task has been spawned.
    pub fn par_next_spawn(&self) -> (r: Option<usize>)
        ensures
            r == (if self.failed is None && (self.next as int) < self.n() {
                Some(self.next)
            } else {
                None::<usize>
            }),
    {
        if self.failed.is_none() && self.next < self.task_executors.len() {
            Some(self.next)
        } else {
            None
        }
    }

    /// Records the spawn attempt of the next parallel task and moves the
    /// cursor on. A failed spawn is recorded and aborts the fan-out; the
    /// tasks already running are left to themselves.
    pub fn par_spawned(&mut self, spawned: bool) -> (r: Result<(), ExecutionError>)
        requires
            old(self).par_wf(),
            old(self).failed is None,
            (old(self).next as int) < old(self).n(),
        ensures
            final(self).par_wf(),
            final(self).jobname == old(self).jobname,
            final(self).job == old(self).job,
            final(self).next == old(self).next + 1,
            final(self).n() == old(self).n(),
            forall|j: int| 0 <= j < old(self).n() && j != old(self).next as int ==> final(self).task_executors@[j] == old(self).task_executors@[j],
            final(self).task_executors@[old(self).next as int].same_binding(
                old(self).task_executors@[old(self).next as int],
            ),
            spawned ==> ({
                &&& r is Ok
                &&& final(self).failed is None
                &&& final(self).exec_state(old(self).next as int) == ExecutorState::Running
            }),
            !spawned ==> ({
                &&& r matches Err(e) && e matches ExecutionError::SpawnError { command }
                    && command@ == old(self).task_executors@[old(self).next as int].task.command@
                &&& final(self).failed == Some(old(self).next)
                &&& final(self).exec_state(old(self).next as int) == ExecutorState::Failed
            }),
    {
        let i = self.next;
        let n = self.task_executors.len();
        proof {
            assert(i < n);
            assert(old(self).exec_state(i as int) == ExecutorState::Idle);
        }
        let mut ex = self.task_executors.remove(i);
        let r = ex.execute(spawned);
        self.task_executors.insert(i, ex);
        proof {
            assert(self.task_executors@ =~= old(self).task_executors@.update(i as int, ex));
        }
        self.next = i + 1;
        if !spawned {
            self.failed = Some(i);
        }
        r
    }

    /// Whether the task at position `i` is still running, for the
    /// round-robin poll of a parallel run.
    pub fn is_running(&self, i: usize) -> (r: bool)
        requires
            (i as int) < self.n(),
        ensures
            r == (self.exec_state(i as int) == ExecutorState::Running),
    {
        match self.task_executors[i].current_state() {
            ExecutorState::Running => true,
            _ => false,
        }
    }

    /// Records one poll of the running task at position `i`. No observed
    /// termination changes nothing; an observed termination records this
    /// task's own outcome — independent of every other task — and hands
    /// back its complete tagged output. A failure is recorded without
    /// cancelling or affecting the others.
    pub fn par_poll(
        &mut self,
        i: usize,
        status: Option<bool>,
        out_lines: &Vec<String>,
        err_lines: &Vec<String>,
    ) -> (r: Vec<SinkMessage>)
        requires
            old(self).par_wf(),
            (i as int) < old(self).n(),
            old(self).exec_state(i as int) == ExecutorState::Running,
        ensures
            final(self).par_wf(),
            final(self).jobname == old(self).jobname,
            final(self).job == old(self).job,
            final(self).next == old(self).next,
            final(self).n() == old(self).n(),
            forall|j: int| 0 <= j < old(self).n() && j != i as int ==> final(self).task_executors@[j] == old(self).task_executors@[j],
            final(self).task_executors@[i as int].same_binding(old(self).task_executors@[i as int]),
            status is None ==> *final(self) == *old(self) && r@.len() == 0,
            status matches Some(success) ==> ({
                &&& final(self).exec_state(i as int) == (ExecutorState::Completed { success })
                &&& sink_view(r@) == output_delivery(
                    old(self).task_executors@[i as int].execution_string@,
                    out_lines.deep_view(),
                    err_lines.deep_view(),
                )
                &&& success ==> final(self).failed == old(self).failed
                &&& !success ==> final(self).failed == (if old(self).failed is None {
                    Some(i)
                } else {
                    old(self).failed
                })
            }),
    {
        match status {
            None => Vec::new(),
            Some(success) => {
                let mut ex = self.task_executors.remove(i);
                let msgs = ex.wait(success, out_lines, err_lines);
                self.task_executors.insert(i, ex);
                proof {
                    assert(self.task_executors@ =~= old(self).task_executors@.update(
                        i as int,
                        ex,
                    ));
                }
                if !success && self.failed.is_none() {
                    self.failed = Some(i);
                }
                msgs
            },
        }
    }

    /// Whether every task of the run has reached a terminal state.
    pub fn all_finished(&self) -> (r: bool)
        ensures
            r == (forall|j: int| #![trigger self.task_executors@[j]] 0 <= j < self.n() ==> (
            self.exec_state(j) matches ExecutorState::Completed { .. } || self.exec_state(j)
                == ExecutorState::Failed)),
    {
        let n = self.task_executors.len();
        for i in 0..n
            invariant
                n as int == self.n(),
                forall|j: int| #![trigger self.task_executors@[j]] 0 <= j < i ==> (
                self.exec_state(j) matches ExecutorState::Completed { .. } || self.exec_state(j)
                    == ExecutorState::Failed),
        {
            match self.task_executors[i].current_state() {
                ExecutorState::Completed { .. } => (),
                ExecutorState::Failed => (),
                _ => {
                    return false;
                },
            }
        }
        true
    }

    /// The first recorded failure, by task-call position.
    pub fn failed_index(&self) -> (r: Option<usize>)
        ensures
            r == self.failed,
    {
        self.failed
    }

    /// Whether every task of the run completed successfully.
    pub fn all_succeeded(&self) -> (r: bool)
        ensures
            r == (forall|j: int| #![trigger self.task_executors@[j]] 0 <= j < self.n()
                ==> self.exec_state(j) == (ExecutorState::Completed { success: true })),
    {
        let n = self.task_executors.len();
        for i in 0..n
            invariant
                n as int == self.n(),
                forall|j: int| #![trigger self.task_executors@[j]] 0 <= j < i
                    ==> self.exec_state(j) == (ExecutorState::Completed { success: true }),
        {
            match self.task_executors[i].current_state() {
                ExecutorState::Completed { success: true } => (),
                _ => {
                    return false;
                },
            }
        }
        true
    }

    /// The number of task-calls in this run.
    pub fn task_count(&self) -> (r: usize)
        ensures
            r as int == self.n(),
    {
        self.task_executors.len()
    }

    /// The executor at position `i`, for the caller to read its
    /// invocation and execution string.
    pub fn executor(&self, i: usize) -> (r: &TaskExecutor)
        requires
            (i as int) < self.n(),
        ensures
            *r == self.task_executors@[i as int],
    {
        &self.task_executors[i]
    }
}

/// Once a sequential run has recorded a failure, the run is frozen: every
/// earlier task had completed successfully, the failed task itself is in a
/// failure state, and every later task is still idle — it is never
/// spawned.
pub proof fn lemma_sequential_fail_fast(je: JobExecution, f: usize)
    requires
        je.seq_wf(),
        je.failed == Some(f),
    ensures
        terminal_failure(je.exec_state(f as int)),
        forall|j: int| #![trigger je.task_executors@[j]] 0 <= j < f as int ==> je.exec_state(j)
            == (ExecutorState::Completed { success: true }),
        forall|j: int| #![trigger je.task_executors@[j]] (f as int) < j < je.n()
            ==> je.exec_state(j) == ExecutorState::Idle,
{
}

/// In a fully polled parallel run, no recorded failure means every task
/// succeeded, and a recorded failure means some task really failed: each
/// task's own outcome is recorded independently, and the aggregate is a
/// failure exactly when at least one task failed.
pub proof fn lemma_parallel_aggregate(je: JobExecution)
    requires
        je.par_wf(),
        forall|j: int| #![trigger je.task_executors@[j]] 0 <= j < je.n() ==> (je.exec_state(j)
            matches ExecutorState::Completed { .. } || je.exec_state(j) == ExecutorState::Failed),
    ensures
        je.failed is None <==> (forall|j: int| #![trigger je.task_executors@[j]] 0 <= j < je.n()
            ==> je.exec_state(j) == (ExecutorState::Completed { success: true })),
{
    if je.failed is None {
        assert forall|j: int| 0 <= j < je.n() implies je.exec_state(j) == (
        ExecutorState::Completed { success: true }) by {
            assert(!terminal_failure(je.exec_state(j)));
        }
    }
}

/// Executes the `run` mode: resolves the named job's task-calls into a
/// fresh execution for the caller to drive.
pub fn run_job_mode(project: &Project, projectfile: &String, jobname: &String) -> (r: Result<
    JobExecution,
    ProjectError,
>)
    ensures
        r is Ok <==> (project.spec_job(jobname@) is Some && job_resolvable(
            *project,
            project.spec_job(jobname@).unwrap(),
        )),
        r matches Ok(je) ==> job_resolution_ok(*project, projectfile@, jobname@, je),
        r matches Err(e) ==> job_resolution_err(*project, jobname@, e),
{
    JobExecution::new(project, projectfile, jobname)
}

/// A job with a task-call naming a task absent from the tasks table can
/// never be resolved, so the whole job is rejected before any process of
/// it is spawned.
pub proof fn lemma_unresolved_task_aborts_job(p: Project, jobname: Seq<char>, i: int)
    requires
        p.spec_job(jobname) is Some,
        0 <= i < p.spec_job(jobname).unwrap().tasks@.len(),
        !call_resolves(p, p.spec_job(jobname).unwrap().tasks@[i]),
    ensures
        !job_resolvable(p, p.spec_job(jobname).unwrap()),
{
}

} // verus!
