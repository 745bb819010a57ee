//! Kernel-wide constants.

use vstd::prelude::*;

verus! {

/// Number of slots in a task's syscall counter table; syscall numbers below
/// this bound are the only ones that can be counted.
pub const MAX_SYSCALL_NUM: usize = 500;

/// Number of the write syscall.
pub const SYSCALL_WRITE: usize = 64;

/// Number of the yield syscall.
pub const SYSCALL_YIELD: usize = 124;

/// Number of the time query.
pub const SYSCALL_GETTIMEOFDAY: usize = 169;

/// Number of the task-info query.
pub const SYSCALL_TASK_INFO: usize = 410;

/// Microseconds in one second.
pub const MICROS_PER_SEC: usize = 1_000_000;

} // verus!
