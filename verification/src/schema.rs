//! The configuration model: tasks, jobs, task-calls, settings and the
//! project that gathers them. Built once per run and never mutated.

pub mod job;
pub mod project;
pub mod settings;
pub mod task;
pub mod task_call;
