//! A configuration-driven task runner library.
//!
//! A project file declares named tasks (external commands with fixed
//! arguments and a call-argument arity) and named jobs (ordered groups of
//! task-calls run sequentially or in parallel). This crate holds the
//! verified core: the configuration model, the command builder with its
//! arity validation, the per-process executor lifecycle, and the job
//! orchestrator. Process spawning, file reading and console printing are
//! left to an unverified shell around the library, which drives the state
//! machines defined here.

pub mod cli;
pub mod errors;
pub mod json;
pub mod modes;
pub mod schema;
pub mod task_executor;
pub mod util;
