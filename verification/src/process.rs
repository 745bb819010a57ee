//! Process management syscalls.
//!
//! Each handler is a function on plain values: whoever decodes the trap reads
//! the clock and lends the handler the caller's buffer, and performs the
//! switch that a handler asks for.

use vstd::prelude::*;
use crate::accounting::{after_query, query_fits, query_increment, TaskInfoView};
use crate::config::{
    MAX_SYSCALL_NUM, MICROS_PER_SEC, SYSCALL_GETTIMEOFDAY, SYSCALL_TASK_INFO, SYSCALL_WRITE,
    SYSCALL_YIELD,
};
use crate::task::{Handoff, TaskStatus};

verus! {

/// A timestamp as whole seconds and the microseconds left over.
#[derive(Clone, Copy, Debug, PartialEq, Eq, Structural)]
pub struct TimeVal {
    pub sec: usize,
    pub usec: usize,
}

impl TimeVal {
    /// The timestamp in microseconds.
    pub open spec fn micros(self) -> int {
        self.sec * MICROS_PER_SEC + self.usec
    }

    /// The microsecond part is less than a second.
    pub open spec fn wf(self) -> bool {
        self.usec < MICROS_PER_SEC
    }
}

/// The counters of a table as unbounded integers.
pub open spec fn counts_of(table: Seq<u32>) -> Seq<int> {
    Seq::new(table.len(), |id: int| table[id] as int)
}

/// Task information
pub struct TaskInfo {
    /// Task status in its life cycle
    status: TaskStatus,
    /// The numbers of syscall called by task
    syscall_times: [u32; MAX_SYSCALL_NUM],
    /// Total running time of task
    time: usize,
    /// Time at which the task started
    start_time: usize,
}

impl View for TaskInfo {
    type V = TaskInfoView;

    closed spec fn view(&self) -> TaskInfoView {
        TaskInfoView {
            status: self.status,
            syscall_times: counts_of(self.syscall_times@),
            time: self.time as int,
            start_time: self.start_time as int,
        }
    }
}

impl TaskInfo {
    /// The record of a task that started at `start_time` milliseconds and has
    /// made no syscall yet.
    pub fn new(start_time: usize) -> (info: TaskInfo)
        ensures
            info@ == TaskInfoView::fresh(start_time as int),
            info@.wf(),
    {
        let info = TaskInfo {
            status: TaskStatus::Uninitialized,
            syscall_times: [0u32; MAX_SYSCALL_NUM],
            time: 0,
            start_time,
        };
        assert(info@.syscall_times =~= TaskInfoView::fresh(start_time as int).syscall_times);
        info
    }

    /// A record with the given contents.
    pub fn from_parts(
        status: TaskStatus,
        syscall_times: [u32; MAX_SYSCALL_NUM],
        time: usize,
        start_time: usize,
    ) -> (info: TaskInfo)
        ensures
            info@ == (TaskInfoView {
                status,
                syscall_times: counts_of(syscall_times@),
                time: time as int,
                start_time: start_time as int,
            }),
            info@.wf(),
    {
        TaskInfo { status, syscall_times, time, start_time }
    }

    /// Task status in its life cycle.
    pub fn status(&self) -> (status: TaskStatus)
        ensures
            status == self@.status,
    {
        self.status
    }

    /// The counter table, one slot per syscall number.
    pub fn syscall_times(&self) -> (table: &[u32; MAX_SYSCALL_NUM])
        ensures
            counts_of(table@) == self@.syscall_times,
    {
        &self.syscall_times
    }

    /// Total running time of the task, in milliseconds, as of the last query.
    pub fn time(&self) -> (time: usize)
        ensures
            time == self@.time,
    {
        self.time
    }

    /// Millisecond timestamp at which the task started.
    pub fn start_time(&self) -> (start_time: usize)
        ensures
            start_time == self@.start_time,
    {
        self.start_time
    }

    /// Whether a query at `now_ms` milliseconds can be recorded: the task did
    /// not start after `now_ms`, and each counter has room for what the query
    /// adds to it.
    pub fn can_query(&self, now_ms: usize) -> (ok: bool)
        ensures
            ok == query_fits(self@, now_ms as int),
    {
        let first: bool = self.syscall_times[SYSCALL_TASK_INFO] == 0;
        let time_queries: u32 = if first { 3 } else { 2 };
        let writes: u32 = if first { 0 } else { 2 };
        let ok: bool = self.start_time <= now_ms
            && self.syscall_times[SYSCALL_GETTIMEOFDAY] <= u32::MAX - time_queries
            && self.syscall_times[SYSCALL_WRITE] <= u32::MAX - writes
            && self.syscall_times[SYSCALL_TASK_INFO] <= u32::MAX - 1
            && self.syscall_times[SYSCALL_YIELD] <= u32::MAX - 1;
        proof {
            let v = self@;
            if ok {
                assert forall|id: int| 0 <= id < MAX_SYSCALL_NUM implies #[trigger] v.syscall_times[id]
                    + query_increment(id, v.first_query()) <= u32::MAX by {}
            } else if self.start_time <= now_ms {
                // One of the four slots that the query raises is full.
                assert(v.count(SYSCALL_GETTIMEOFDAY as int) + time_queries > u32::MAX || v.count(
                    SYSCALL_WRITE as int,
                ) + writes > u32::MAX || v.count(SYSCALL_TASK_INFO as int) + 1 > u32::MAX || v.count(
                    SYSCALL_YIELD as int,
                ) + 1 > u32::MAX);
            }
        }
        ok
    }

    /// The view of every record fits machine words, so the laws of the
    /// accounting model hold of it.
    pub proof fn lemma_view_wf(&self)
        ensures
            self@.wf(),
    {
    }
}

/// task exits and submit an exit code
///
/// Asks the scheduler to end the calling task; no value ever goes back to it,
/// whatever the exit code.
pub fn sys_exit(exit_code: i32) -> (next: Handoff)
    ensures
        next == (Handoff::Terminated { exit_code }),
        !next.resumes_caller(),
        next.status_after().is_terminal(),
{
    Handoff::Terminated { exit_code }
}

/// current task gives up resources for other tasks
///
/// Asks the scheduler to run another task; the caller is continued later with
/// 0 as the value of its call.
pub fn sys_yield() -> (next: Handoff)
    ensures
        next == (Handoff::Suspended { ret: 0 }),
        next.resumes_caller(),
{
    Handoff::Suspended { ret: 0 }
}

/// get time with second and microsecond
///
/// Writes the clock reading `now_us`, in microseconds, to `ts` as seconds and
/// leftover microseconds. `_tz` is reserved and has no effect.
pub fn sys_get_time(ts: &mut TimeVal, _tz: usize, now_us: usize) -> (ret: isize)
    ensures
        ret == 0,
        final(ts).sec == now_us / MICROS_PER_SEC,
        final(ts).usec == now_us % MICROS_PER_SEC,
        final(ts).wf(),
        final(ts).micros() == now_us,
{
    *ts = TimeVal { sec: now_us / MICROS_PER_SEC, usec: now_us % MICROS_PER_SEC };
    0
}

/// Answers the task-info query of the task that owns `ti`, made at `now_ms`
/// milliseconds: counts the query in the task's record, which `ti` carries
/// from one query to the next, and brings the running time up to date.
pub fn sys_task_info(ti: &mut TaskInfo, now_ms: usize) -> (ret: isize)
    requires
        query_fits(old(ti)@, now_ms as int),
    ensures
        ret == 0,
        final(ti)@ == after_query(old(ti)@, now_ms as int),
        final(ti)@.wf(),
        final(ti)@.time == now_ms - old(ti)@.start_time,
        final(ti)@.time >= 0,
        final(ti)@.count(SYSCALL_TASK_INFO as int) == old(ti)@.count(SYSCALL_TASK_INFO as int) + 1,
        final(ti)@.count(SYSCALL_YIELD as int) == old(ti)@.count(SYSCALL_YIELD as int) + 1,
{
    let ghost before = ti@;
    proof {
        // The table's view is built slot by slot; naming the four slots that
        // the query raises brings their bounds into scope.
        assert(before.count(SYSCALL_GETTIMEOFDAY as int) + 3 <= u32::MAX || !before.first_query());
        assert(before.count(SYSCALL_GETTIMEOFDAY as int) + 2 <= u32::MAX);
        assert(before.count(SYSCALL_WRITE as int) + 2 <= u32::MAX || before.first_query());
        assert(before.count(SYSCALL_TASK_INFO as int) + 1 <= u32::MAX);
        assert(before.count(SYSCALL_YIELD as int) + 1 <= u32::MAX);
    }
    ti.status = TaskStatus::Running;
    if ti.syscall_times[SYSCALL_TASK_INFO] == 0 {
        ti.syscall_times[SYSCALL_GETTIMEOFDAY] += 1;
    } else {
        ti.syscall_times[SYSCALL_WRITE] += 2;
    }
    ti.time = now_ms - ti.start_time;
    ti.syscall_times[SYSCALL_GETTIMEOFDAY] += 2;
    ti.syscall_times[SYSCALL_TASK_INFO] += 1;
    ti.syscall_times[SYSCALL_YIELD] += 1;
    assert(ti@.syscall_times =~= after_query(before, now_ms as int).syscall_times);
    0
}

} // verus!
