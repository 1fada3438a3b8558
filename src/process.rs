//! Process management syscalls.
use vstd::prelude::*;

verus! {

use crate::config::MAX_SYSCALL_NUM;
use crate::task::TaskStatus;

/// Wall-clock time split into whole seconds and the microseconds left over.
#[derive(Clone, Copy, Debug, PartialEq, Eq, Structural)]
pub struct TimeVal {
    pub sec: usize,
    pub usec: usize,
}

impl TimeVal {
    /// The microseconds part stays below one second.
    pub open spec fn wf(&self) -> bool {
        self.usec < 1_000_000
    }
}

/// Reports the time `us` (microseconds since boot, as read from the clock)
/// into the caller's buffer `ts`. The second argument is reserved and unused.
pub fn sys_get_time(ts: &mut TimeVal, us: usize, _tz: usize) -> (r: isize)
    ensures
        r == 0,
        final(ts).sec == us / 1_000_000,
        final(ts).usec == us % 1_000_000,
        final(ts).wf(),
        final(ts).sec * 1_000_000 + final(ts).usec == us,
{
    *ts = TimeVal { sec: us / 1_000_000, usec: us % 1_000_000 };
    0
}

/// What a task's accounting record holds, as mathematical values.
pub struct TaskInfoView {
    pub status: TaskStatus,
    pub syscall_times: Seq<u32>,
    pub time: usize,
}

impl TaskInfoView {
    /// One counter per syscall identifier.
    pub open spec fn wf(self) -> bool {
        self.syscall_times.len() == MAX_SYSCALL_NUM
    }

    pub open spec fn with_status(self, status: TaskStatus) -> TaskInfoView {
        TaskInfoView { status, syscall_times: self.syscall_times, time: self.time }
    }

    pub open spec fn with_syscall_times(self, times: Seq<u32>) -> TaskInfoView {
        TaskInfoView { status: self.status, syscall_times: times, time: self.time }
    }

    pub open spec fn with_time(self, time: usize) -> TaskInfoView {
        TaskInfoView { status: self.status, syscall_times: self.syscall_times, time }
    }

    /// The record after one more call of syscall `index`.
    pub open spec fn incremented(self, index: int) -> TaskInfoView {
        self.with_syscall_times(
            self.syscall_times.update(index, (self.syscall_times[index] + 1) as u32),
        )
    }

    /// The record after `k` more calls of syscall `index`.
    pub open spec fn incremented_n(self, index: int, k: nat) -> TaskInfoView
        decreases k,
    {
        if k == 0 {
            self
        } else {
            self.incremented_n(index, (k - 1) as nat).incremented(index)
        }
    }
}

/// A task's accounting record: its status, how often it invoked each
/// syscall, and how long it has run in total.
pub struct TaskInfo {
    status: TaskStatus,
    syscall_times: [u32; MAX_SYSCALL_NUM],
    time: usize,
}

impl View for TaskInfo {
    type V = TaskInfoView;

    closed spec fn view(&self) -> TaskInfoView {
        TaskInfoView { status: self.status, syscall_times: self.syscall_times@, time: self.time }
    }
}

impl TaskInfo {
    /// A fresh record in the given status: every counter and the time at zero.
    pub fn new(status: TaskStatus) -> (r: TaskInfo)
        ensures
            r@.wf(),
            r@.status == status,
            r@.syscall_times == Seq::new(MAX_SYSCALL_NUM as nat, |i: int| 0u32),
            r@.time == 0,
    {
        let r = TaskInfo { status, syscall_times: [0u32; MAX_SYSCALL_NUM], time: 0 };
        assert(r@.syscall_times =~= Seq::new(MAX_SYSCALL_NUM as nat, |i: int| 0u32));
        r
    }

    /// Every record holds one counter per syscall identifier.
    pub proof fn lemma_wf(&self)
        ensures
            self@.wf(),
    {
    }

    /// Getter for status
    pub fn get_status(&self) -> (r: &TaskStatus)
        ensures
            *r == self@.status,
    {
        &self.status
    }

    /// Setter for status
    pub fn set_status(&mut self, new_status: TaskStatus)
        ensures
            final(self)@ == old(self)@.with_status(new_status),
    {
        self.status = new_status;
    }

    /// Getter for syscall_times
    pub fn get_syscall_times(&self) -> (r: &[u32; MAX_SYSCALL_NUM])
        ensures
            r@ == self@.syscall_times,
    {
        &self.syscall_times
    }

    /// Replaces every counter at once.
    pub fn set_syscall_times(&mut self, new_values: &[u32; MAX_SYSCALL_NUM])
        ensures
            final(self)@ == old(self)@.with_syscall_times(new_values@),
    {
        self.syscall_times = *new_values;
    }

    /// Counts one more call of syscall `index`. An index out of range is a
    /// defect of the caller, never a runtime condition.
    pub fn increment_syscall_time(&mut self, index: usize)
        requires
            index < MAX_SYSCALL_NUM,
            old(self)@.syscall_times[index as int] < u32::MAX,
        ensures
            final(self)@ == old(self)@.incremented(index as int),
    {
        self.syscall_times[index] = self.syscall_times[index] + 1;
    }

    /// Getter for time
    pub fn get_time(&self) -> (r: usize)
        ensures
            r == self@.time,
    {
        self.time
    }

    /// Setter for time; the total running time of a task never goes back.
    pub fn set_time(&mut self, new_time: usize)
        requires
            old(self)@.time <= new_time,
        ensures
            final(self)@ == old(self)@.with_time(new_time),
    {
        self.time = new_time;
    }
}

/// What a handler asks of the task registry, which owns the scheduling.
#[derive(Clone, Copy, Debug, PartialEq, Eq, Structural)]
pub enum Reschedule {
    /// End the current task, recording its exit code, and switch to another.
    ExitCurrent { exit_code: i32 },
    /// Suspend the current task and switch to another; the task runs again
    /// when the registry picks it.
    SuspendCurrent,
}

/// What a handler does once the registry hands the processor back to it.
#[derive(Clone, Copy, Debug, PartialEq, Eq, Structural)]
pub enum Resumption {
    /// Return this value to the task that made the syscall.
    Return(isize),
    /// The registry broke its promise to switch away for good: halt the kernel.
    Abort,
}

/// A handler's decision: what to ask of the registry, and what to do if
/// control comes back.
#[derive(Clone, Copy, Debug, PartialEq, Eq, Structural)]
pub struct Handoff {
    pub request: Reschedule,
    pub on_resume: Resumption,
}

/// task exits and submit an exit code: the task ends and the registry runs
/// another one; coming back here is an invariant violation.
pub fn sys_exit(exit_code: i32) -> (h: Handoff)
    ensures
        h.request == (Reschedule::ExitCurrent { exit_code }),
        h.on_resume == Resumption::Abort,
        !(h.on_resume is Return),
{
    Handoff { request: Reschedule::ExitCurrent { exit_code }, on_resume: Resumption::Abort }
}

/// current task gives up resources for other tasks, and succeeds once it
/// runs again.
pub fn sys_yield() -> (h: Handoff)
    ensures
        h.request == Reschedule::SuspendCurrent,
        h.on_resume == Resumption::Return(0),
{
    Handoff { request: Reschedule::SuspendCurrent, on_resume: Resumption::Return(0) }
}

/// Writes the record `snapshot`, which the task registry put together for the
/// current task, into the caller's buffer `ti`.
pub fn sys_task_info(ti: &mut TaskInfo, snapshot: TaskInfo) -> (r: isize)
    ensures
        r == 0,
        final(ti)@ == snapshot@,
{
    *ti = snapshot;
    0
}

/// Counting `k` calls of syscall `index`, from a counter at zero, leaves
/// that counter at exactly `k` and every other part of the record as it was.
pub proof fn lemma_increment_count(m: TaskInfoView, index: int, k: nat)
    requires
        m.wf(),
        0 <= index < MAX_SYSCALL_NUM,
        m.syscall_times[index] == 0,
        k <= u32::MAX,
    ensures
        m.incremented_n(index, k).wf(),
        m.incremented_n(index, k).syscall_times[index] == k,
        forall|j: int|
            0 <= j < MAX_SYSCALL_NUM && j != index ==> #[trigger] m.incremented_n(
                index,
                k,
            ).syscall_times[j] == m.syscall_times[j],
        m.incremented_n(index, k).status == m.status,
        m.incremented_n(index, k).time == m.time,
    decreases k,
{
    if k > 0 {
        lemma_increment_count(m, index, (k - 1) as nat);
    }
}

/// Writing all counters at once and reading them back gives exactly the
/// counters written.
pub proof fn lemma_syscall_times_round_trip(m: TaskInfoView, values: Seq<u32>)
    requires
        m.wf(),
        values.len() == MAX_SYSCALL_NUM,
    ensures
        m.with_syscall_times(values).wf(),
        m.with_syscall_times(values).syscall_times == values,
{
}

} // verus!
