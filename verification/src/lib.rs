//! Core logic of a single-file content-pinning agent: a process that watches
//! the parent directory of one designated file and, whenever a qualifying
//! change event fires, rewrites that file's entire content to a fixed payload.
//!
//! The platform-bound pieces (the kernel event queue, the blocking wait, the
//! actual filesystem writes) live outside this crate; here stand the decisions
//! the agent makes and the rule it enforces, each with its contract.

pub mod file_state;
pub mod interest;
pub mod monitor;
