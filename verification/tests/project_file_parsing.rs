//! Validation of whole project documents against the project schema, with
//! the document contents written inline.

use setup::json::load_jsonschema;
use setup::modes::validate::validate_mode;
use setup::util::import_project_value;

fn validate_text(text: &str) -> Result<(), setup::errors::ProjectError> {
    let schema = load_jsonschema().expect("the project schema must compile");
    let file = String::from("inline.json");
    let value = import_project_value(text, &file)?;
    validate_mode(&schema, &value)
}

/// Test the parsing of a minimal project file
#[test]
fn minimal_project_file_test() {
    let text = "{ \"jobs\": {}, \"tasks\": {} }";
    let validation_result = validate_text(text);
    assert!(validation_result.is_ok())
}

/// Testing a project file with correct jobs
#[test]
fn correct_jobs_test() {
    let text = "{
        \"jobs\": {
            \"build\": {
                \"tasks\": [
                    { \"task\": \"compile\" },
                    { \"task\": \"test\", \"args\": [\"--all\"] }
                ],
                \"parallel\": false
            },
            \"check\": { \"tasks\": [ { \"task\": \"compile\" } ] }
        },
        \"tasks\": {
            \"compile\": { \"command\": \"make\" },
            \"test\": { \"command\": \"cargo\", \"args\": [\"test\"], \"required_call_args\": 1 }
        }
    }";
    let validation_result = validate_text(text);
    assert!(validation_result.is_ok())
}

/// Testing a project file with missing task in taskcall
#[test]
fn missing_task_in_taskcall_test() {
    let text = "{
        \"jobs\": {
            \"build\": { \"tasks\": [ { \"args\": [\"x\"] } ] }
        },
        \"tasks\": {}
    }";
    let validation_result = validate_text(text);
    assert!(validation_result.is_err())
}

/// Testing a project file with empty settings
#[test]
fn empty_settings_test() {
    let text = "{ \"settings\": {}, \"jobs\": {}, \"tasks\": {} }";
    let validation_result = validate_text(text);
    assert!(validation_result.is_ok())
}

/// Testing a project file with settings added
#[test]
fn complete_settings_test() {
    let text = "{
        \"settings\": { \"project_file_as_work_dir\": true },
        \"jobs\": {},
        \"tasks\": {}
    }";
    let validation_result = validate_text(text);
    assert!(validation_result.is_ok())
}

/// Testing a project file with unknown additional settings entries
#[test]
fn wrong_settings_entry_test() {
    let text = "{
        \"settings\": { \"unknown_entry\": true },
        \"jobs\": {},
        \"tasks\": {}
    }";
    let validation_result = validate_text(text);
    assert!(validation_result.is_err())
}

/// Testing a project file with correct tasks
#[test]
fn correct_tasks_test() {
    let text = "{
        \"jobs\": {},
        \"tasks\": {
            \"lint\": { \"command\": \"clippy\", \"args\": [\"--fix\"], \"required_call_args\": 1 },
            \"fmt\": { \"command\": \"rustfmt\" }
        }
    }";
    let validation_result = validate_text(text);
    assert!(validation_result.is_ok())
}

/// Testing a project file with missing command entry
#[test]
fn missing_command_test() {
    let text = "{
        \"jobs\": {},
        \"tasks\": {
            \"bad\": { \"args\": [\"x\"] }
        }
    }";
    let validation_result = validate_text(text);
    match &validation_result {
        Err(_) => println!("schema rejected the task without a command"),
        _ => {},
    }
    assert!(validation_result.is_err())
}
