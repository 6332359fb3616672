//! Schema validation as an independent check: referential validity is not
//! part of it, and validating is idempotent.

use setup::errors::ProjectError;
use setup::json::load_jsonschema;
use setup::modes::run_job::run_job_mode;
use setup::modes::validate::validate_mode;
use setup::schema::job::Job;
use setup::schema::project::Project;
use setup::schema::task::Task;
use setup::schema::task_call::TaskCall;
use setup::util::import_project_value;

/// A document that is schema-valid but references an undefined task name:
/// it validates and deserializes, and fails only at job resolution.
#[test]
fn schema_validity_is_independent_of_referential_validity() {
    let text = "{
        \"jobs\": {
            \"all\": { \"tasks\": [ { \"task\": \"ghost_task\" } ] }
        },
        \"tasks\": {
            \"real_task\": { \"command\": \"true\" }
        }
    }";
    let schema = load_jsonschema().expect("the project schema must compile");
    let file = String::from("inline.json");
    let value = import_project_value(text, &file).expect("well-formed JSON");
    assert!(validate_mode(&schema, &value).is_ok());

    // The same document as a configuration model.
    let project = Project::new(
        None,
        vec![(
            String::from("all"),
            Job { tasks: vec![TaskCall { task: String::from("ghost_task"), args: None }], parallel: None },
        )],
        vec![(
            String::from("real_task"),
            Task { command: String::from("true"), args: None, required_call_args: None },
        )],
    )
    .expect("unique names");

    match run_job_mode(&project, &file, &String::from("all")) {
        Err(ProjectError::TaskNotFound { task }) => assert_eq!(task, "ghost_task"),
        _ => panic!("resolution must fail on the undefined task name"),
    }
}

/// Validating the same valid document twice yields identical success
/// outcomes: no shared state is mutated.
#[test]
fn validate_only_mode_is_idempotent() {
    let text = "{
        \"settings\": { \"project_file_as_work_dir\": false },
        \"jobs\": { \"all\": { \"tasks\": [ { \"task\": \"t\" } ] } },
        \"tasks\": { \"t\": { \"command\": \"true\" } }
    }";
    let schema = load_jsonschema().expect("the project schema must compile");
    let file = String::from("inline.json");

    let first_value = import_project_value(text, &file).expect("well-formed JSON");
    let first = validate_mode(&schema, &first_value);
    let second_value = import_project_value(text, &file).expect("well-formed JSON");
    let second = validate_mode(&schema, &second_value);
    assert!(first.is_ok());
    assert!(second.is_ok());
    assert_eq!(first.is_ok(), second.is_ok());
}

/// A schema-invalid document is rejected with a schema-violation error.
#[test]
fn invalid_document_reports_schema_violation() {
    let text = "{ \"jobs\": {} }";
    let schema = load_jsonschema().expect("the project schema must compile");
    let file = String::from("inline.json");
    let value = import_project_value(text, &file).expect("well-formed JSON");
    match validate_mode(&schema, &value) {
        Err(ProjectError::SchemaViolation) => {}
        _ => panic!("expected a schema violation"),
    }
}

/// Text that is not JSON at all fails at parsing, naming the file.
#[test]
fn malformed_text_reports_parse_error() {
    let text = "{ not json";
    let file = String::from("broken.json");
    match import_project_value(text, &file) {
        Err(ProjectError::ParseError { file, message }) => {
            assert_eq!(file, "broken.json");
            assert!(!message.is_empty());
        }
        _ => panic!("expected a parse error"),
    }
}
