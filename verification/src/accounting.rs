//! The mathematical model of task-info accounting: what one query does to a
//! task's record, what a run of queries does, and the laws that follow.

use vstd::prelude::*;
use crate::config::{
    MAX_SYSCALL_NUM, SYSCALL_GETTIMEOFDAY, SYSCALL_TASK_INFO, SYSCALL_WRITE, SYSCALL_YIELD,
};
use crate::task::TaskStatus;

verus! {

/// A task's accounting record over unbounded integers.
pub struct TaskInfoView {
    /// Phase of the task's life cycle.
    pub status: TaskStatus,
    /// One counter per syscall number.
    pub syscall_times: Seq<int>,
    /// Milliseconds the task has been running, as of the last query.
    pub time: int,
    /// Millisecond timestamp at which the task started.
    pub start_time: int,
}

impl TaskInfoView {
    /// The record can be held in machine words: the table has one slot per
    /// syscall number, every counter fits 32 bits, both times fit a word.
    pub open spec fn wf(self) -> bool {
        &&& self.syscall_times.len() == MAX_SYSCALL_NUM
        &&& forall|id: int|
            0 <= id < MAX_SYSCALL_NUM ==> 0 <= #[trigger] self.syscall_times[id] <= u32::MAX
        &&& 0 <= self.time <= usize::MAX
        &&& 0 <= self.start_time <= usize::MAX
    }

    /// The record of a task that started at `start_time` and has made no
    /// syscall yet.
    pub open spec fn fresh(start_time: int) -> TaskInfoView {
        TaskInfoView {
            status: TaskStatus::Uninitialized,
            syscall_times: Seq::new(MAX_SYSCALL_NUM as nat, |id: int| 0int),
            time: 0,
            start_time,
        }
    }

    /// The task has not queried its own record before.
    pub open spec fn first_query(self) -> bool {
        self.syscall_times[SYSCALL_TASK_INFO as int] == 0
    }

    /// The count recorded for syscall number `id`.
    pub open spec fn count(self, id: int) -> int {
        self.syscall_times[id]
    }
}

/// By how much one task-info query raises the counter of syscall `id`.
/// `first` says whether the task had never queried before.
///
/// A first query counts as three time queries; a later one as two time
/// queries and two writes. Every query counts itself and one yield.
pub open spec fn query_increment(id: int, first: bool) -> int {
    if id == SYSCALL_GETTIMEOFDAY {
        if first { 3 } else { 2 }
    } else if id == SYSCALL_WRITE {
        if first { 0 } else { 2 }
    } else if id == SYSCALL_TASK_INFO || id == SYSCALL_YIELD {
        1
    } else {
        0
    }
}

/// The record after one task-info query made at `now_ms` milliseconds.
pub open spec fn after_query(v: TaskInfoView, now_ms: int) -> TaskInfoView {
    TaskInfoView {
        status: TaskStatus::Running,
        syscall_times: Seq::new(
            v.syscall_times.len(),
            |id: int| v.syscall_times[id] + query_increment(id, v.first_query()),
        ),
        time: now_ms - v.start_time,
        start_time: v.start_time,
    }
}

/// The record after one query at each of the times in `clock`, in order.
pub open spec fn after_queries(v: TaskInfoView, clock: Seq<int>) -> TaskInfoView
    decreases clock.len(),
{
    if clock.len() == 0 {
        v
    } else {
        after_query(after_queries(v, clock.drop_last()), clock.last())
    }
}

/// Whether a query at `now_ms` keeps the record within machine words: the
/// task did not start after `now_ms`, and no counter that the query raises
/// leaves 32 bits.
pub open spec fn query_fits(v: TaskInfoView, now_ms: int) -> bool {
    &&& v.start_time <= now_ms
    &&& forall|id: int|
        0 <= id < MAX_SYSCALL_NUM ==> #[trigger] v.syscall_times[id] + query_increment(
            id,
            v.first_query(),
        ) <= u32::MAX
}

/// Every query counts itself once and one yield, whether or not it is the
/// task's first, and leaves the table's size and the start time as they were.
pub proof fn lemma_query_counts_itself(v: TaskInfoView, now_ms: int)
    requires
        v.wf(),
    ensures
        after_query(v, now_ms).count(SYSCALL_TASK_INFO as int) == v.count(SYSCALL_TASK_INFO as int)
            + 1,
        after_query(v, now_ms).count(SYSCALL_YIELD as int) == v.count(SYSCALL_YIELD as int) + 1,
        after_query(v, now_ms).syscall_times.len() == v.syscall_times.len(),
        after_query(v, now_ms).start_time == v.start_time,
{
}

/// The running time after a query is the time of the query less the start
/// time, and it is negative only for a task that started after the query.
pub proof fn lemma_query_time(v: TaskInfoView, now_ms: int)
    ensures
        after_query(v, now_ms).time == now_ms - v.start_time,
        v.start_time <= now_ms <==> after_query(v, now_ms).time >= 0,
{
}

/// A run of queries raises the query counter and the yield counter by the
/// number of queries, keeps the start time, and leaves as running time the
/// time of the last query less the start time.
pub proof fn lemma_queries_count_themselves(v: TaskInfoView, clock: Seq<int>)
    requires
        v.wf(),
    ensures
        after_queries(v, clock).count(SYSCALL_TASK_INFO as int) == v.count(
            SYSCALL_TASK_INFO as int,
        ) + clock.len(),
        after_queries(v, clock).count(SYSCALL_YIELD as int) == v.count(SYSCALL_YIELD as int)
            + clock.len(),
        after_queries(v, clock).syscall_times.len() == v.syscall_times.len(),
        after_queries(v, clock).start_time == v.start_time,
        clock.len() > 0 ==> after_queries(v, clock).time == clock.last() - v.start_time,
    decreases clock.len(),
{
    if clock.len() > 0 {
        lemma_queries_count_themselves(v, clock.drop_last());
    }
}

/// In a run of queries by a task that had never queried before, the first
/// query adds 3 to the time-query counter and nothing to the write counter;
/// every later query adds 2 to each. `j` numbers the queries from 0.
pub proof fn lemma_run_step_increments(v: TaskInfoView, clock: Seq<int>, j: int)
    requires
        v.wf(),
        v.first_query(),
        0 <= j < clock.len(),
    ensures
        ({
            let before = after_queries(v, clock.take(j));
            let after = after_queries(v, clock.take(j + 1));
            &&& after == after_query(before, clock[j])
            &&& before.first_query() <==> j == 0
            &&& after.count(SYSCALL_GETTIMEOFDAY as int) - before.count(
                SYSCALL_GETTIMEOFDAY as int,
            ) == if j == 0 { 3int } else { 2int }
            &&& after.count(SYSCALL_WRITE as int) - before.count(SYSCALL_WRITE as int) == if j
                == 0 { 0int } else { 2int }
        }),
{
    assert(clock.take(j + 1).drop_last() =~= clock.take(j));
    lemma_queries_count_themselves(v, clock.take(j));
}

/// After `k >= 1` queries by a task that had never queried before, the
/// time-query counter has grown by `2k + 1`, the write counter by `2(k - 1)`,
/// the yield counter by `k`, and the query counter stands at `k`.
pub proof fn lemma_run_totals(v: TaskInfoView, clock: Seq<int>)
    requires
        v.wf(),
        v.first_query(),
        clock.len() >= 1,
    ensures
        after_queries(v, clock).count(SYSCALL_GETTIMEOFDAY as int) == v.count(
            SYSCALL_GETTIMEOFDAY as int,
        ) + 2 * clock.len() + 1,
        after_queries(v, clock).count(SYSCALL_WRITE as int) == v.count(SYSCALL_WRITE as int) + 2
            * (clock.len() - 1),
        after_queries(v, clock).count(SYSCALL_YIELD as int) == v.count(SYSCALL_YIELD as int)
            + clock.len(),
        after_queries(v, clock).count(SYSCALL_TASK_INFO as int) == clock.len(),
    decreases clock.len(),
{
    let rest = clock.drop_last();
    lemma_queries_count_themselves(v, rest);
    if rest.len() >= 1 {
        lemma_run_totals(v, rest);
    } else {
        assert(after_queries(v, rest) == v);
    }
}

} // verus!
