//! Syscall-facing bookkeeping of a small kernel: the handlers for exit, yield,
//! time query and task-info query, as functions on plain values.

pub mod accounting;
pub mod config;
pub mod process;
pub mod task;
