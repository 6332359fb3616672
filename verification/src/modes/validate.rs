//! Validate mode: check a project document against the project schema.

use vstd::prelude::*;
use crate::errors::ProjectError;
use crate::schema::project::Project;

verus! {

/// Checks whether the project document matches the project schema. The
/// verdict itself comes from the black-box validator; success is returned
/// exactly when it accepted the document. Schema validity says nothing
/// about referential validity: a task name referenced by a job may still
/// be absent, which only job resolution detects.
pub fn validate_mode(schema: &jsonschema::JSONSchema, project_data: &serde_json::Value) -> (r:
    Result<(), ProjectError>)
    ensures
        r matches Err(e) ==> e is SchemaViolation,
{
    Project::validate_project(schema, project_data)
}

} // verus!
