//! The mode entry points: one function per mode of operation, each taking
//! already-loaded inputs and returning a result for the caller to render.

pub mod list_jobs;
pub mod list_tasks;
pub mod run;
pub mod run_job;
pub mod run_task;
pub mod validate;
