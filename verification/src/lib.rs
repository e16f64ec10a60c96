//! Turns a declarative backup configuration and a requested operation into
//! the exact command lines of the `restic` backup tool.
//!
//! The crate holds no I/O: it decides which repositories an operation
//! targets, in what order the tool is invoked, and with which arguments.
//! Running the resulting invocations is left to the caller.

pub mod command;
pub mod config;
pub mod context;
pub mod decimal;
pub mod dispatch;
pub mod json;
pub mod repos;
pub mod snapshots;
