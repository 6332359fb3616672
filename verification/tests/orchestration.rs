//! Driving jobs through the orchestrator: sequential fail-fast, parallel
//! fan-out with independent outcomes, and resolution-time rejection.

use setup::errors::ProjectError;
use setup::modes::run_job::{run_job_mode, JobExecution};
use setup::schema::job::Job;
use setup::schema::project::Project;
use setup::schema::task::Task;
use setup::schema::task_call::TaskCall;
use setup::task_executor::ExecutorState;

fn simple_task(command: &str) -> Task {
    Task { command: String::from(command), args: None, required_call_args: None }
}

fn call(taskname: &str) -> TaskCall {
    TaskCall { task: String::from(taskname), args: None }
}

/// A project with tasks A, B, C and one job calling them in order.
fn three_task_project(parallel: bool) -> Project {
    let job = Job {
        tasks: vec![call("task_a"), call("task_b"), call("task_c")],
        parallel: Some(parallel),
    };
    Project::new(
        None,
        vec![(String::from("all"), job)],
        vec![
            (String::from("task_a"), simple_task("cmd_a")),
            (String::from("task_b"), simple_task("cmd_b")),
            (String::from("task_c"), simple_task("cmd_c")),
        ],
    )
    .expect("unique names")
}

fn resolve(project: &Project, jobname: &str) -> Result<JobExecution, ProjectError> {
    let file = String::from("Setup.json");
    run_job_mode(project, &file, &String::from(jobname))
}

/// Sequential job over A (exit 0), B (exit 1), C (exit 0): C is never
/// spawned, and the job's failure names B.
#[test]
fn sequential_fail_fast_skips_later_tasks() {
    let project = three_task_project(false);
    let mut je = resolve(&project, "all").expect("job resolves");
    let empty: Vec<String> = Vec::new();
    // Exit statuses the three processes would report, by position.
    let statuses = [true, false, true];
    let mut spawned: Vec<usize> = Vec::new();
    while let Some(i) = je.seq_current() {
        spawned.push(i);
        je.seq_spawned(true).expect("spawn recorded");
        let _ = je.seq_finished(statuses[i], &empty, &empty);
    }
    // A ran, B ran; C was never current, so it was never spawned.
    assert_eq!(spawned, vec![0, 1]);
    assert_eq!(je.failed_index(), Some(1));
    assert_eq!(je.executor(1).task.command, "cmd_b");
    assert_eq!(je.executor(2).state, ExecutorState::Idle);
    assert!(!je.all_succeeded());
    assert_eq!(je.executor(0).state, ExecutorState::Completed { success: true });
}

/// Parallel job over the same three tasks: all three are spawned, the job
/// fails, and A's and C's own success is still recorded.
#[test]
fn parallel_failure_does_not_mask_other_outcomes() {
    let project = three_task_project(true);
    let mut je = resolve(&project, "all").expect("job resolves");
    let empty: Vec<String> = Vec::new();
    let mut spawned: Vec<usize> = Vec::new();
    while let Some(i) = je.par_next_spawn() {
        spawned.push(i);
        je.par_spawned(true).expect("spawn recorded");
    }
    assert_eq!(spawned, vec![0, 1, 2]);
    // Round-robin polling: B finishes first and fails, then A and C succeed.
    let order: [(usize, bool); 3] = [(1, false), (0, true), (2, true)];
    for (i, success) in order {
        assert!(je.is_running(i));
        let _ = je.par_poll(i, Some(success), &empty, &empty);
    }
    assert!(je.all_finished());
    assert!(je.failed_index().is_some());
    assert!(!je.all_succeeded());
    assert_eq!(je.executor(0).state, ExecutorState::Completed { success: true });
    assert_eq!(je.executor(1).state, ExecutorState::Completed { success: false });
    assert_eq!(je.executor(2).state, ExecutorState::Completed { success: true });
}

/// A poll that observes no termination changes nothing.
#[test]
fn parallel_pending_poll_changes_nothing() {
    let project = three_task_project(true);
    let mut je = resolve(&project, "all").expect("job resolves");
    let empty: Vec<String> = Vec::new();
    while let Some(_) = je.par_next_spawn() {
        je.par_spawned(true).expect("spawn recorded");
    }
    let messages = je.par_poll(0, None, &empty, &empty);
    assert!(messages.is_empty());
    assert!(je.is_running(0));
    assert!(!je.all_finished());
}

/// A job referencing a task name absent from the tasks table fails at
/// resolution, before any executor exists to spawn.
#[test]
fn unresolved_task_aborts_before_any_spawn() {
    let job = Job { tasks: vec![call("task_a"), call("ghost_task")], parallel: None };
    let project = Project::new(
        None,
        vec![(String::from("all"), job)],
        vec![(String::from("task_a"), simple_task("cmd_a"))],
    )
    .expect("unique names");
    match resolve(&project, "all") {
        Err(ProjectError::TaskNotFound { task }) => assert_eq!(task, "ghost_task"),
        _ => panic!("expected a task-not-found error"),
    }
}

/// A job name absent from the jobs table is rejected as such.
#[test]
fn unknown_job_is_rejected() {
    let project = three_task_project(false);
    match resolve(&project, "nightly") {
        Err(ProjectError::JobNotFound { job }) => assert_eq!(job, "nightly"),
        _ => panic!("expected a job-not-found error"),
    }
}

/// An arity mismatch inside a stored task-call also aborts resolution.
#[test]
fn stored_call_arity_mismatch_aborts_resolution() {
    let job = Job {
        tasks: vec![TaskCall { task: String::from("task_a"), args: Some(vec![String::from("x")]) }],
        parallel: None,
    };
    let project = Project::new(
        None,
        vec![(String::from("all"), job)],
        vec![(String::from("task_a"), simple_task("cmd_a"))],
    )
    .expect("unique names");
    match resolve(&project, "all") {
        Err(ProjectError::ArityMismatch { task, expected, actual }) => {
            assert_eq!(task, "cmd_a");
            assert_eq!(expected, 0);
            assert_eq!(actual, 1);
        }
        _ => panic!("expected an argument-arity error"),
    }
}

/// A spawn failure in a sequential run is a spawn error naming the
/// command, and freezes the run.
#[test]
fn sequential_spawn_failure_freezes_run() {
    let project = three_task_project(false);
    let mut je = resolve(&project, "all").expect("job resolves");
    assert_eq!(je.seq_current(), Some(0));
    match je.seq_spawned(false) {
        Err(setup::errors::ExecutionError::SpawnError { command }) => {
            assert_eq!(command, "cmd_a");
        }
        _ => panic!("expected a spawn error"),
    }
    assert_eq!(je.seq_current(), None);
    assert_eq!(je.failed_index(), Some(0));
    assert_eq!(je.executor(1).state, ExecutorState::Idle);
}
