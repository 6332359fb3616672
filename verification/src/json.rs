//! The trusted boundary to the JSON crates.
//!
//! Everything the library takes on faith about serde_json and jsonschema
//! stands here: the declarations of their types and one wrapper per call
//! the core makes. The raw document is parsed into a `serde_json::Value`
//! and checked against a compiled schema; both values stay opaque to the
//! rest of the library.

use vstd::prelude::*;

verus! {

#[verifier::external_type_specification]
#[verifier::external_body]
pub struct ExValue(serde_json::Value);

#[verifier::external_type_specification]
#[verifier::external_body]
pub struct ExJsonParseError(serde_json::Error);

#[verifier::external_type_specification]
#[verifier::external_body]
pub struct ExJSONSchema(jsonschema::JSONSchema);

/// Whether parsing accepts `s` as a well-formed JSON document; what
/// serde_json's parser returns depends on the text alone.
pub uninterp spec fn json_parses(s: Seq<char>) -> bool;

/// Relies on serde_json's `FromStr` for `Value`: parsing succeeds exactly
/// on well-formed JSON text, a function of the text alone.
#[verifier::external_body]
pub fn parse_json_value(s: &str) -> (r: Result<serde_json::Value, serde_json::Error>)
    ensures
        r is Ok == json_parses(s@),
{
    core::str::FromStr::from_str(s)
}

/// Relies on serde_json's `Display` for `Error`: renders the parse error
/// for the messages shown to the user.
#[verifier::external_body]
pub fn json_error_message(e: &serde_json::Error) -> (r: String) {
    e.to_string()
}

/// Relies on jsonschema's `JSONSchema::options().with_draft(Draft7)
/// .compile`: builds the validation tree for a schema document, or fails
/// on a schema the crate cannot compile.
#[verifier::external_body]
pub fn compile_draft7_schema(schema: &serde_json::Value) -> (r: Option<jsonschema::JSONSchema>) {
    jsonschema::JSONSchema::options()
        .with_draft(jsonschema::Draft::Draft7)
        .compile(schema)
        .ok()
}

/// Relies on jsonschema's `JSONSchema::is_valid`: the black-box pass/fail
/// verdict of the document against the compiled schema.
#[verifier::external_body]
pub fn schema_is_valid(schema: &jsonschema::JSONSchema, instance: &serde_json::Value) -> (r: bool) {
    schema.is_valid(instance)
}

/// The schema every project document is checked against: tasks keyed by
/// name with a command, fixed arguments and an optional call arity; jobs
/// keyed by name with their task-calls and a parallel flag; optional
/// settings. Unknown members are rejected everywhere.
pub fn project_schema_text() -> &'static str {
    "{
  \"$schema\": \"http://json-schema.org/draft-07/schema#\",
  \"type\": \"object\",
  \"properties\": {
    \"settings\": {
      \"type\": \"object\",
      \"properties\": { \"project_file_as_work_dir\": { \"type\": \"boolean\" } },
      \"additionalProperties\": false
    },
    \"jobs\": {
      \"type\": \"object\",
      \"additionalProperties\": {
        \"type\": \"object\",
        \"properties\": {
          \"tasks\": {
            \"type\": \"array\",
            \"items\": {
              \"type\": \"object\",
              \"properties\": {
                \"task\": { \"type\": \"string\" },
                \"args\": { \"type\": \"array\", \"items\": { \"type\": \"string\" } }
              },
              \"required\": [\"task\"],
              \"additionalProperties\": false
            }
          },
          \"parallel\": { \"type\": \"boolean\" }
        },
        \"required\": [\"tasks\"],
        \"additionalProperties\": false
      }
    },
    \"tasks\": {
      \"type\": \"object\",
      \"additionalProperties\": {
        \"type\": \"object\",
        \"properties\": {
          \"command\": { \"type\": \"string\" },
          \"args\": { \"type\": \"array\", \"items\": { \"type\": \"string\" } },
          \"required_call_args\": { \"type\": \"integer\", \"minimum\": 0, \"maximum\": 255 }
        },
        \"required\": [\"command\"],
        \"additionalProperties\": false
      }
    }
  },
  \"required\": [\"jobs\", \"tasks\"],
  \"additionalProperties\": false
}"
}

/// Parses and compiles the project schema. The schema text is fixed, so a
/// `None` here means the validator crate rejected it and no document can
/// be checked.
pub fn load_jsonschema() -> (r: Option<jsonschema::JSONSchema>) {
    let text = project_schema_text();
    match parse_json_value(text) {
        Ok(v) => compile_draft7_schema(&v),
        Err(_) => None,
    }
}

} // verus!
