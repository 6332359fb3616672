//! Run mode: the job entry point that also applies the project's
//! working-directory setting — kept alongside [`crate::modes::run_job`],
//! whose resolution it shares.

use vstd::prelude::*;
use crate::errors::ProjectError;
use crate::modes::run_job::{
    job_resolution_err, job_resolution_ok, job_resolvable, run_job_mode, JobExecution,
};
use crate::schema::project::Project;

verus! {

/// Executes run mode: resolves the named job — its working-directory
/// override taken from the project's settings — into a fresh execution for
/// the caller to drive.
pub fn run_mode(project: &Project, projectfile: &String, jobname: &String) -> (r: Result<
    JobExecution,
    ProjectError,
>)
    ensures
        r is Ok <==> (project.spec_job(jobname@) is Some && job_resolvable(
            *project,
            project.spec_job(jobname@).unwrap(),
        )),
        r matches Ok(je) ==> job_resolution_ok(*project, projectfile@, jobname@, je),
        r matches Err(e) ==> job_resolution_err(*project, jobname@, e),
{
    run_job_mode(project, projectfile, jobname)
}

} // verus!
