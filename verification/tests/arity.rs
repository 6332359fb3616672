//! Arity validation of call-site arguments against a task's declared
//! `required_call_args`.

use setup::errors::ProjectError;
use setup::schema::project::Project;
use setup::schema::task::Task;
use setup::schema::task_call::TaskCall;
use setup::task_executor::TaskExecutor;

fn strings(items: &[&str]) -> Vec<String> {
    items.iter().map(|s| String::from(*s)).collect()
}

fn task_requiring(n: Option<u8>) -> Task {
    Task { command: String::from("tool"), args: Some(strings(&["fixed"])), required_call_args: n }
}

fn call_with(args: &[&str]) -> TaskCall {
    TaskCall { task: String::from("tool"), args: Some(strings(args)) }
}

/// With `required_call_args` declared, exactly that many call arguments
/// pass validation.
#[test]
fn declared_arity_exact_count_passes() {
    let task = task_requiring(Some(2));
    let result = TaskExecutor::new(&task, &call_with(&["a", "b"]), &None);
    assert!(result.is_ok());
}

/// With `required_call_args = Some(n)`, `n - 1` call arguments fail with
/// an argument-arity error naming the task and both counts.
#[test]
fn declared_arity_one_too_few_fails() {
    let task = task_requiring(Some(2));
    let result = TaskExecutor::new(&task, &call_with(&["a"]), &None);
    match result {
        Err(ProjectError::ArityMismatch { task, expected, actual }) => {
            assert_eq!(task, "tool");
            assert_eq!(expected, 2);
            assert_eq!(actual, 1);
        }
        _ => panic!("expected an argument-arity error"),
    }
}

/// With `required_call_args = Some(n)`, `n + 1` call arguments fail with
/// an argument-arity error naming the task and both counts.
#[test]
fn declared_arity_one_too_many_fails() {
    let task = task_requiring(Some(2));
    let result = TaskExecutor::new(&task, &call_with(&["a", "b", "c"]), &None);
    match result {
        Err(ProjectError::ArityMismatch { task, expected, actual }) => {
            assert_eq!(task, "tool");
            assert_eq!(expected, 2);
            assert_eq!(actual, 3);
        }
        _ => panic!("expected an argument-arity error"),
    }
}

/// With `required_call_args` absent, zero call arguments pass validation.
#[test]
fn absent_arity_zero_arguments_pass() {
    let task = task_requiring(None);
    let result = TaskExecutor::new(&task, &call_with(&[]), &None);
    assert!(result.is_ok());
    let result = TaskExecutor::new(
        &task,
        &TaskCall { task: String::from("tool"), args: None },
        &None,
    );
    assert!(result.is_ok());
}

/// With `required_call_args` absent, any nonzero call-argument count fails
/// arity validation.
#[test]
fn absent_arity_nonzero_arguments_fail() {
    let task = task_requiring(None);
    let result = TaskExecutor::new(&task, &call_with(&["extra"]), &None);
    match result {
        Err(ProjectError::ArityMismatch { expected, actual, .. }) => {
            assert_eq!(expected, 0);
            assert_eq!(actual, 1);
        }
        _ => panic!("expected an argument-arity error"),
    }
    let result = TaskExecutor::new(&task, &call_with(&["x", "y", "z"]), &None);
    match result {
        Err(ProjectError::ArityMismatch { expected, actual, .. }) => {
            assert_eq!(expected, 0);
            assert_eq!(actual, 3);
        }
        _ => panic!("expected an argument-arity error"),
    }
}

/// The direct-invocation builder applies the same arity rule and names
/// the task by its table name.
#[test]
fn direct_invocation_arity_checked() {
    let project = Project::new(
        None,
        Vec::new(),
        vec![(String::from("greet"), Task {
            command: String::from("echo"),
            args: None,
            required_call_args: Some(1),
        })],
    )
    .expect("unique names");
    let file = String::from("Setup.json");
    let name = String::from("greet");

    let ok = setup::modes::run_task::run_task_mode(&project, &file, &name, strings(&["hi"]));
    assert!(ok.is_ok());

    let too_many = setup::modes::run_task::run_task_mode(
        &project,
        &file,
        &name,
        strings(&["hi", "there"]),
    );
    match too_many {
        Err(ProjectError::ArityMismatch { task, expected, actual }) => {
            assert_eq!(task, "greet");
            assert_eq!(expected, 1);
            assert_eq!(actual, 2);
        }
        _ => panic!("expected an argument-arity error"),
    }
}
