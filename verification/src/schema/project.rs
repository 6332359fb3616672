//! The `Project`: settings plus the named tables of jobs and tasks.
//!
//! The tables are association lists kept in insertion order, with names
//! unique — the well-formedness every lookup relies on. Every task name
//! referenced by a task-call must exist in the tasks table, but that is
//! checked at job resolution time, not here: schema validity and
//! referential validity are independent checks.

use vstd::prelude::*;
use crate::errors::ProjectError;
use crate::json::schema_is_valid;
use crate::schema::job::Job;
use crate::schema::settings::Settings;
use crate::schema::task::Task;

verus! {

/// The first entry of `entries` named `name`, if any.
pub open spec fn find_entry<V>(entries: Seq<(String, V)>, name: Seq<char>) -> Option<V>
    decreases entries.len(),
{
    if entries.len() == 0 {
        None
    } else if entries[0].0@ == name {
        Some(entries[0].1)
    } else {
        find_entry(entries.drop_first(), name)
    }
}

/// Whether some entry of `entries` is named `name`.
pub open spec fn has_name<V>(entries: Seq<(String, V)>, name: Seq<char>) -> bool {
    exists|i: int| 0 <= i < entries.len() && entries[i].0@ == name
}

/// Whether no two entries of `entries` share a name.
pub open spec fn unique_names<V>(entries: Seq<(String, V)>) -> bool {
    forall|i: int, j: int|
        0 <= i < j < entries.len() ==> entries[i].0@ != entries[j].0@
}

proof fn lemma_find_entry_some<V>(entries: Seq<(String, V)>, name: Seq<char>)
    ensures
        find_entry(entries, name) is Some <==> has_name(entries, name),
        find_entry(entries, name) matches Some(v) ==> exists|i: int|
            0 <= i < entries.len() && entries[i].0@ == name && entries[i].1 == v,
    decreases entries.len(),
{
    if entries.len() > 0 {
        if entries[0].0@ == name {
        } else {
            let rest = entries.drop_first();
            lemma_find_entry_some(rest, name);
            if has_name(rest, name) {
                let i = choose|i: int| 0 <= i < rest.len() && rest[i].0@ == name;
                assert(entries[i + 1].0@ == name);
            }
            if has_name(entries, name) {
                let i = choose|i: int| 0 <= i < entries.len() && entries[i].0@ == name;
                assert(rest[i - 1].0@ == name);
            }
            if find_entry(rest, name) is Some {
                let v = find_entry(rest, name).unwrap();
                let i = choose|i: int|
                    0 <= i < rest.len() && rest[i].0@ == name && rest[i].1 == v;
                assert(entries[i + 1].0@ == name && entries[i + 1].1 == v);
            }
        }
    }
}

/// Skipping a prefix in which the name does not occur leaves the first
/// match unchanged.
proof fn lemma_find_entry_skip<V>(entries: Seq<(String, V)>, name: Seq<char>, n: int)
    requires
        0 <= n <= entries.len(),
        forall|j: int| 0 <= j < n ==> entries[j].0@ != name,
    ensures
        find_entry(entries, name) == find_entry(entries.skip(n), name),
    decreases n,
{
    if n > 0 {
        let rest = entries.drop_first();
        assert forall|j: int| 0 <= j < n - 1 implies rest[j].0@ != name by {
            assert(rest[j] == entries[j + 1]);
        }
        lemma_find_entry_skip(rest, name, n - 1);
        assert(rest.skip(n - 1) =~= entries.skip(n));
        assert(entries[0].0@ != name);
    } else {
        assert(entries.skip(0) =~= entries);
    }
}

/// Looks `name` up in an association list, returning the index of the
/// first entry carrying it.
pub fn find_index_by_name<V>(entries: &Vec<(String, V)>, name: &String) -> (r: Option<usize>)
    ensures
        match r {
            Some(i) => i < entries@.len() && entries@[i as int].0@ == name@
                && find_entry(entries@, name@) == Some(entries@[i as int].1),
            None => !has_name(entries@, name@) && find_entry(entries@, name@) is None,
        },
{
    let n = entries.len();
    for i in 0..n
        invariant
            n == entries@.len(),
            forall|j: int| 0 <= j < i ==> entries@[j].0@ != name@,
    {
        if entries[i].0 == *name {
            proof {
                lemma_find_entry_skip(entries@, name@, i as int);
                assert(entries@.skip(i as int)[0] == entries@[i as int]);
            }
            return Some(i);
        }
    }
    proof {
        lemma_find_entry_skip(entries@, name@, n as int);
        assert(entries@.skip(n as int).len() == 0);
        lemma_find_entry_some(entries@, name@);
    }
    None
}

/// Checks that no two entries share a name, returning the index pair of
/// the first collision otherwise.
fn check_unique_names<V>(entries: &Vec<(String, V)>) -> (r: Option<usize>)
    ensures
        match r {
            None => unique_names(entries@),
            Some(i) => i < entries@.len() && exists|j: int|
                0 <= j < i && entries@[j].0@ == entries@[i as int].0@,
        },
{
    let n = entries.len();
    for i in 0..n
        invariant
            n == entries@.len(),
            forall|a: int, b: int| 0 <= a < b < i ==> entries@[a].0@ != entries@[b].0@,
    {
        for j in 0..i
            invariant
                i < entries@.len(),
                forall|a: int, b: int| 0 <= a < b < i ==> entries@[a].0@ != entries@[b].0@,
                forall|b: int| 0 <= b < j ==> entries@[b].0@ != entries@[i as int].0@,
        {
            if entries[j].0 == entries[i].0 {
                return Some(i);
            }
        }
    }
    None
}

/// A fully parsed project: optional settings, the jobs table and the tasks
/// table, each a name-keyed list in insertion order.
pub struct Project {
    pub settings: Option<Settings>,
    pub jobs: Vec<(String, Job)>,
    pub tasks: Vec<(String, Task)>,
}

impl Project {
    /// Both tables carry each name at most once.
    pub open spec fn wf(self) -> bool {
        unique_names(self.jobs@) && unique_names(self.tasks@)
    }

    /// The first job of the given name.
    pub open spec fn spec_job(self, name: Seq<char>) -> Option<Job> {
        find_entry(self.jobs@, name)
    }

    /// The first task of the given name.
    pub open spec fn spec_task(self, name: Seq<char>) -> Option<Task> {
        find_entry(self.tasks@, name)
    }

    /// Gathers the tables into a project, rejecting a repeated job or task
    /// name.
    pub fn new(settings: Option<Settings>, jobs: Vec<(String, Job)>, tasks: Vec<(String, Task)>) -> (r:
        Result<Project, ProjectError>)
        ensures
            r is Ok <==> unique_names(jobs@) && unique_names(tasks@),
            r matches Ok(p) ==> p.wf() && p.settings == settings && p.jobs == jobs
                && p.tasks == tasks,
            r matches Err(e) ==> e is DuplicateName,
    {
        if let Some(i) = check_unique_names(&jobs) {
            let name = jobs[i].0.clone();
            return Err(ProjectError::DuplicateName { name });
        }
        if let Some(i) = check_unique_names(&tasks) {
            let name = tasks[i].0.clone();
            return Err(ProjectError::DuplicateName { name });
        }
        Ok(Project { settings, jobs, tasks })
    }

    /// Validates a project document against the compiled project schema.
    /// The schema check is a black-box pass/fail collaborator; this
    /// function turns its verdict into a result, via
    /// [`validation_outcome`].
    pub fn validate_project(schema: &jsonschema::JSONSchema, project: &serde_json::Value) -> (r:
        Result<(), ProjectError>)
        ensures
            r matches Err(e) ==> e is SchemaViolation,
    {
        let valid = schema_is_valid(schema, project);
        validation_outcome(valid)
    }
}

/// The outcome of the schema check: success exactly when the validator
/// accepted the document, and a schema-violation error otherwise.
pub fn validation_outcome(valid: bool) -> (r: Result<(), ProjectError>)
    ensures
        r is Ok <==> valid,
        !valid ==> (r matches Err(e) && e is SchemaViolation),
{
    if valid {
        Ok(())
    } else {
        Err(ProjectError::SchemaViolation)
    }
}

} // verus!
