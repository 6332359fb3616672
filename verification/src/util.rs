//! Shared helpers: message severities, project-file detection, document
//! parsing and small verified copies of string data.

use vstd::prelude::*;
use vstd::string::StringExecFns;
use crate::errors::ProjectError;
use crate::json::{json_error_message, json_parses, parse_json_value};
use crate::schema::settings::Settings;

verus! {

/// The severity a sink message is tagged with: the library's own notices,
/// and the two output channels of a child process.
#[derive(Clone, Copy, PartialEq, Eq, Structural, Debug)]
pub enum MessageSeverity {
    Info,
    Success,
    ChildInfo,
    ChildError,
}

/// Copies a list of strings, keeping every element.
pub fn clone_string_vec(v: &Vec<String>) -> (r: Vec<String>)
    ensures
        r@ == v@,
{
    let mut r: Vec<String> = Vec::new();
    let n = v.len();
    for i in 0..n
        invariant
            n == v@.len(),
            r@.len() == i,
            forall|j: int| 0 <= j < i ==> r@[j] == v@[j],
    {
        r.push(v[i].clone());
    }
    proof {
        assert(r@ =~= v@);
    }
    r
}

/// Copies an optional list of strings, keeping presence and every element.
pub fn clone_opt_string_vec(v: &Option<Vec<String>>) -> (r: Option<Vec<String>>)
    ensures
        r is Some <==> v is Some,
        r matches Some(rv) ==> v matches Some(vv) && rv@ == vv@,
{
    match v {
        Some(inner) => Some(clone_string_vec(inner)),
        None => None,
    }
}

/// Parses the text of a project file into a JSON document. Fails exactly
/// on text that is not well-formed JSON, naming the file and the parser's
/// own message.
pub fn import_project_value(project_data: &str, projectfile: &String) -> (r: Result<
    serde_json::Value,
    ProjectError,
>)
    ensures
        r is Ok == json_parses(project_data@),
        r matches Err(e) ==> e matches ProjectError::ParseError { file, message }
            && file@ == projectfile@,
{
    match parse_json_value(project_data) {
        Ok(value) => Ok(value),
        Err(error) => Err(
            ProjectError::ParseError {
                file: projectfile.clone(),
                message: json_error_message(&error),
            },
        ),
    }
}

/// The path checked in round `i` of project-file detection: the default
/// file name, moved one directory further up each round.
pub open spec fn candidate_path(i: nat) -> Seq<char>
    decreases i,
{
    if i == 0 {
        "Setup.json"@
    } else {
        "../"@ + candidate_path((i - 1) as nat)
    }
}

/// How many parent directories detection climbs before giving up.
pub const DETECTION_ROUNDS: usize = 25;

/// The candidate paths probed when no project file is given: the default
/// file name in the working directory and in each of the next parent
/// directories, nearest first.
pub fn project_file_candidates() -> (r: Vec<String>)
    ensures
        r@.len() == DETECTION_ROUNDS,
        forall|i: int| 0 <= i < r@.len() ==> r@[i]@ == candidate_path(i as nat),
{
    let mut r: Vec<String> = Vec::new();
    let mut path: String = "Setup.json".to_owned();
    for i in 0..DETECTION_ROUNDS
        invariant
            r@.len() == i,
            forall|j: int| 0 <= j < i ==> r@[j]@ == candidate_path(j as nat),
            path@ == candidate_path(i as nat),
    {
        r.push(path.clone());
        let mut next: String = "../".to_owned();
        next.append(path.as_str());
        path = next;
    }
    r
}

/// Picks the nearest existing candidate: `exists` answers, for each
/// candidate path in order, whether a file stands there. Succeeds with the
/// first hit; with no hit at all, detection fails.
pub fn detect_project_file(candidates: &Vec<String>, exists: &Vec<bool>) -> (r: Result<
    String,
    ProjectError,
>)
    requires
        candidates@.len() == exists@.len(),
    ensures
        r is Ok <==> exists|i: int| 0 <= i < exists@.len() && exists@[i],
        r matches Ok(p) ==> exists|i: int|
            0 <= i < exists@.len() && exists@[i] && p@ == candidates@[i]@
                && (forall|j: int| 0 <= j < i ==> !exists@[j]),
        r matches Err(e) ==> e is ProjectFileNotFound,
{
    let n = candidates.len();
    for i in 0..n
        invariant
            n == candidates@.len(),
            n == exists@.len(),
            forall|j: int| 0 <= j < i ==> !exists@[j],
    {
        if exists[i] {
            return Ok(candidates[i].clone());
        }
    }
    Err(ProjectError::ProjectFileNotFound)
}

/// The working-directory override for spawned processes: the project-file
/// path itself when the settings ask for it, nothing otherwise. The
/// caller later resolves the path to its parent directory.
pub fn work_dir_override(settings: &Option<Settings>, projectfile: &String) -> (r: Option<String>)
    ensures
        r is Some <==> (settings matches Some(s) && s.project_file_as_work_dir == Some(true)),
        r matches Some(p) ==> p@ == projectfile@,
{
    match settings {
        Some(s) => match s.project_file_as_work_dir {
            Some(true) => Some(projectfile.clone()),
            _ => None,
        },
        None => None,
    }
}

} // verus!
