//! Round-robin task scheduler.
//!
//! The scheduler decides which task runs; the switch of register state is
//! performed by the caller, which receives a `SwitchAction` for it.
pub mod context_switch;
pub mod preemptive;
pub mod task;

use vstd::prelude::*;
use crate::nexis_kernel::memory::{FRAME_SIZE, frames_ok};
use crate::nexis_kernel::scheduler::preemptive::PreemptionState;
use crate::nexis_kernel::interrupt::timer::TimerState;
use crate::nexis_kernel::memory::frame_allocator::{BitmapFrameAllocator, first_free};
use crate::nexis_kernel::scheduler::task::{
    MAX_TASKS, Task, TaskId, TaskState, TaskTable, alloc_stack, prepare_stack, first_in_state, stack_allocated,
    count_in_state,
};

verus! {

/// A register-state switch the caller must perform.
#[derive(Debug, Clone, Copy, PartialEq, Eq, Structural)]
pub enum SwitchAction {
    /// Save the running task's stack pointer into slot `from` and resume slot `to`.
    Switch { from: usize, to: usize },
    /// Start running slot `to`; there is no current task to save.
    Start { to: usize },
}

/// Scheduler state: the task table, the running slot, the run queue and the
/// next task id to hand out.
pub struct Scheduler {
    pub table: TaskTable,
    pub current: Option<usize>,
    pub run_queue: Vec<usize>,
    pub next_tid: u64,
}

/// Scheduler statistics.
#[derive(Debug, Clone, Copy, PartialEq, Eq, Structural)]
pub struct SchedulerStats {
    pub ready_tasks: usize,
    pub running_tasks: usize,
    pub blocked_tasks: usize,
    pub terminated_tasks: usize,
    pub total_tasks: usize,
}

impl Default for SchedulerStats {
    fn default() -> (r: Self)
        ensures
            r == (SchedulerStats { ready_tasks: 0, running_tasks: 0, blocked_tasks: 0,
                terminated_tasks: 0, total_tasks: 0 }),
    {
        SchedulerStats { ready_tasks: 0, running_tasks: 0, blocked_tasks: 0, terminated_tasks: 0, total_tasks: 0 }
    }
}

/// The slot `k` steps after `start`, cyclically.
pub open spec fn slot_after(start: int, k: int) -> int {
    (start + k) % (MAX_TASKS as int)
}

/// The first ready slot in cyclic order from `start`, looking at `k` and later steps.
pub open spec fn ready_from(s: Seq<Task>, start: int, k: int) -> Option<int>
    decreases MAX_TASKS - k,
{
    if k < 0 || k >= MAX_TASKS {
        None
    } else if s[slot_after(start, k)].state == TaskState::Ready {
        Some(slot_after(start, k))
    } else {
        ready_from(s, start, k + 1)
    }
}

/// Where the round-robin search starts: after the current slot, or at 0.
pub open spec fn search_start(current: Option<usize>) -> int {
    match current {
        Some(i) => (i + 1) % (MAX_TASKS as int),
        None => 0,
    }
}

/// `s` with the state of slot `i` replaced.
pub open spec fn set_state(s: Seq<Task>, i: int, st: TaskState) -> Seq<Task> {
    s.update(i, Task { state: st, ..s[i] })
}

proof fn lemma_ready_from_range(s: Seq<Task>, start: int, k: int)
    requires
        0 <= start,
    ensures
        ready_from(s, start, k) matches Some(i) ==> 0 <= i < MAX_TASKS && s[i].state == TaskState::Ready,
    decreases MAX_TASKS - k,
{
    if 0 <= k < MAX_TASKS && s[slot_after(start, k)].state != TaskState::Ready {
        lemma_ready_from_range(s, start, k + 1);
    }
}

proof fn lemma_ready_from_none(s: Seq<Task>, start: int, k: int)
    requires
        0 <= k,
        forall|j: int| k <= j < MAX_TASKS ==> s[#[trigger] slot_after(start, j)].state != TaskState::Ready,
    ensures
        ready_from(s, start, k) is None,
    decreases MAX_TASKS - k,
{
    if k < MAX_TASKS {
        lemma_ready_from_none(s, start, k + 1);
    }
}

impl Scheduler {
    /// Internal consistency: a full task table, a valid current slot and run
    /// queue entries.
    pub open spec fn wf(&self) -> bool {
        &&& self.table.wf()
        &&& self.current matches Some(c) ==> c < MAX_TASKS
        &&& forall|k: int| 0 <= k < self.run_queue@.len() ==> #[trigger] self.run_queue@[k] < MAX_TASKS
    }

    /// The task slots.
    pub open spec fn tasks(&self) -> Seq<Task> {
        self.table.tasks@
    }

    /// An empty scheduler: all slots free, nothing running, ids from 1.
    pub fn new() -> (r: Self)
        ensures
            r.wf(),
            r.tasks() == Seq::new(MAX_TASKS as nat, |i: int| task::empty_task()),
            r.current is None,
            r.run_queue@ == Seq::<usize>::empty(),
            r.next_tid == 1,
    {
        Scheduler { table: TaskTable::new(), current: None, run_queue: Vec::new(), next_tid: 1 }
    }
}

/// What spawning a task with a stack of `pages` frames does to the
/// scheduler and the frames, and the slot it returns (see `spawn`).
pub open spec fn spawn_effect(
    before: Scheduler,
    after: Scheduler,
    frames0: Option<BitmapFrameAllocator>,
    frames1: Option<BitmapFrameAllocator>,
    pages: usize,
    r: Option<usize>,
) -> bool {
    &&& (after.current == before.current)
    &&& (r matches Some(i) ==> i < MAX_TASKS)
    &&& (first_in_state(before.tasks(), TaskState::Terminated) is None ==> r is None && after == before
                && frames1 == frames0)
    &&& (first_in_state(before.tasks(), TaskState::Terminated) matches Some(slot) ==> after.next_tid
                == before.next_tid + 1 && (match r {
                Some(i) => i == slot && after.run_queue@ == before.run_queue@.push(i) && after.tasks()
                    == before.tasks().update(slot, after.tasks()[slot]) && after.tasks()[slot].tid
                    == TaskId(before.next_tid) && after.tasks()[slot].state == TaskState::Ready
                    && after.tasks()[slot].stack_size == pages * FRAME_SIZE,
                None => after.tasks() == before.tasks() && after.run_queue@ == before.run_queue@,
            }))
    &&& (first_in_state(before.tasks(), TaskState::Terminated) is Some ==> {
        &&& pages == 0 ==> r is None && frames1 == frames0
        &&& frames0 is None ==> r is None && frames1 is None
        &&& pages > 0 && frames0 is Some ==> stack_allocated(frames0->0, frames1, pages, match r {
            Some(i) => Some((after.tasks()[i as int].stack_base, after.tasks()[i as int].stack_size)),
            None => None,
        })
    })
}

/// Spawns a task running at `entry` with a stack of `pages` frames.  A free
/// slot is required; the task id is consumed even when the stack cannot be
/// allocated.  The new task is ready and queued.
pub fn spawn(s: &mut Scheduler, entry: usize, frames: &mut Option<BitmapFrameAllocator>, pages: usize) -> (r: Option<usize>)
    requires
        old(s).wf(),
        frames_ok(*old(frames)),
        pages * FRAME_SIZE <= usize::MAX,
        old(s).next_tid < u64::MAX,
    ensures
        final(s).wf(),
        frames_ok(*final(frames)),
        spawn_effect(*old(s), *final(s), *old(frames), *final(frames), pages, r),
{
    proof {
        task::lemma_first_in_state_spec(s.tasks(), TaskState::Terminated);
    }
    let slot = match s.table.find_free_slot() {
        Some(i) => i,
        None => {
            return None;
        },
    };
    let tid = TaskId(s.next_tid);
    s.next_tid = s.next_tid + 1;
    let ghost f0 = *frames;
    match alloc_stack(frames, pages) {
        Some((stack_base, stack_size)) => {
            proof {
                let a = f0->0;
                task::lemma_room_after_first_free(a@, pages as nat);
                a.lemma_view_len();
                a.lemma_frame_at_index(first_free(a@));
                assert(first_free(a@) * FRAME_SIZE + pages * FRAME_SIZE <= a.count() * FRAME_SIZE)
                    by (nonlinear_arith)
                    requires first_free(a@) + pages <= a.count();
            }
            if stack_base > usize::MAX - stack_size {
                return None;
            }
            let rsp = prepare_stack(entry, stack_base, stack_size);
            let new_task = Task { tid, rsp, stack_base, stack_size, state: TaskState::Ready };
            s.table.tasks.set(slot, new_task);
            s.run_queue.push(slot);
            Some(slot)
        },
        None => None,
    }
}

/// The next ready slot in round-robin order after the current one.
pub fn find_next_ready_task(s: &Scheduler) -> (r: Option<usize>)
    requires
        s.wf(),
    ensures
        r == (match ready_from(s.tasks(), search_start(s.current), 0) {
            Some(i) => Some(i as usize),
            None => None,
        }),
        r matches Some(i) ==> i < MAX_TASKS && s.tasks()[i as int].state == TaskState::Ready,
{
    let start_idx = match s.current {
        Some(idx) => (idx + 1) % MAX_TASKS,
        None => 0,
    };
    proof {
        lemma_ready_from_range(s.tasks(), start_idx as int, 0);
    }
    let mut i: usize = 0;
    while i < MAX_TASKS
        invariant
            s.wf(),
            start_idx == search_start(s.current),
            start_idx < MAX_TASKS,
            i <= MAX_TASKS,
            ready_from(s.tasks(), start_idx as int, 0) == ready_from(s.tasks(), start_idx as int, i as int),
        decreases MAX_TASKS - i,
    {
        let idx = (start_idx + i) % MAX_TASKS;
        if s.table.tasks[idx].state == TaskState::Ready {
            return Some(idx);
        }
        i = i + 1;
    }
    None
}

/// Makes slot `next_idx` the running task and says which switch to perform.
pub fn switch_to_task(s: &mut Scheduler, next_idx: usize) -> (r: Option<SwitchAction>)
    requires
        old(s).wf(),
        next_idx < MAX_TASKS,
    ensures
        final(s).wf(),
        final(s).run_queue@ == old(s).run_queue@,
        final(s).next_tid == old(s).next_tid,
        final(s).current == Some(next_idx),
        ({
            let marked = set_state(old(s).tasks(), next_idx as int, TaskState::Running);
            match old(s).current {
                Some(cur) => if cur != next_idx {
                    &&& r == Some(SwitchAction::Switch { from: cur, to: next_idx })
                    &&& final(s).tasks() == (if marked[cur as int].state == TaskState::Running {
                        set_state(marked, cur as int, TaskState::Ready)
                    } else {
                        marked
                    })
                } else {
                    r is None && final(s).tasks() == marked
                },
                None => r == Some(SwitchAction::Start { to: next_idx }) && final(s).tasks() == marked,
            }
        }),
{
    let mut t = s.table.tasks[next_idx];
    t.state = TaskState::Running;
    s.table.tasks.set(next_idx, t);
    match s.current {
        Some(cur_idx) => {
            if cur_idx != next_idx {
                if s.table.tasks[cur_idx].state == TaskState::Running {
                    let mut c = s.table.tasks[cur_idx];
                    c.state = TaskState::Ready;
                    s.table.tasks.set(cur_idx, c);
                }
                s.current = Some(next_idx);
                Some(SwitchAction::Switch { from: cur_idx, to: next_idx })
            } else {
                None
            }
        },
        None => {
            s.current = Some(next_idx);
            Some(SwitchAction::Start { to: next_idx })
        },
    }
}

/// What a yield does to the scheduler and which switch it asks for: the
/// running task becomes ready and the next ready task in round-robin order
/// runs; with no running task nothing happens.
pub open spec fn yield_effect(before: Scheduler, after: Scheduler, r: Option<SwitchAction>) -> bool {
    &&& after.run_queue@ == before.run_queue@
    &&& after.next_tid == before.next_tid
    &&& before.current is None ==> r is None && after == before
    &&& before.current matches Some(cur) ==> ({
        let yielded = if before.tasks()[cur as int].state == TaskState::Running {
            set_state(before.tasks(), cur as int, TaskState::Ready)
        } else {
            before.tasks()
        };
        match ready_from(yielded, search_start(before.current), 0) {
            None => r is None && after.tasks() == yielded && after.current == before.current,
            Some(next) => after.current == Some(next as usize) && (if next == cur {
                r is None && after.tasks() == set_state(yielded, next, TaskState::Running)
            } else {
                r == Some(SwitchAction::Switch { from: cur, to: next as usize })
                    && after.tasks() == set_state(yielded, next, TaskState::Running)
            }),
        }
    })
}

/// Gives up the processor: the running task becomes ready and the next
/// ready task in round-robin order is switched to.
pub fn task_yield(s: &mut Scheduler) -> (r: Option<SwitchAction>)
    requires
        old(s).wf(),
    ensures
        final(s).wf(),
        yield_effect(*old(s), *final(s), r),
{
    let current_idx = match s.current {
        Some(idx) => idx,
        None => {
            return None;
        },
    };
    if s.table.tasks[current_idx].state == TaskState::Running {
        let mut c = s.table.tasks[current_idx];
        c.state = TaskState::Ready;
        s.table.tasks.set(current_idx, c);
    }
    match find_next_ready_task(s) {
        Some(next_idx) => {
            let ghost yielded = s.tasks();
            proof {
                lemma_ready_from_range(yielded, search_start(s.current), 0);
            }
            let r = switch_to_task(s, next_idx);
            proof {
                let marked = set_state(yielded, next_idx as int, TaskState::Running);
                if current_idx != next_idx {
                    assert(marked[current_idx as int] == yielded[current_idx as int]);
                }
            }
            r
        },
        None => None,
    }
}

/// `q` without the entries equal to `x`, in order.
pub open spec fn without(q: Seq<usize>, x: usize) -> Seq<usize>
    decreases q.len(),
{
    if q.len() == 0 {
        q
    } else if q.last() != x {
        without(q.drop_last(), x).push(q.last())
    } else {
        without(q.drop_last(), x)
    }
}

proof fn lemma_without_bound(q: Seq<usize>, x: usize, m: usize)
    requires
        forall|k: int| 0 <= k < q.len() ==> #[trigger] q[k] < m,
    ensures
        forall|k: int| 0 <= k < without(q, x).len() ==> #[trigger] without(q, x)[k] < m,
    decreases q.len(),
{
    if q.len() > 0 {
        assert forall|k: int| 0 <= k < q.drop_last().len() implies #[trigger] q.drop_last()[k] < m by {
            assert(q.drop_last()[k] == q[k]);
        }
        lemma_without_bound(q.drop_last(), x, m);
        let w = without(q.drop_last(), x);
        assert(q[q.len() - 1] < m);
        if q.last() != x {
            assert forall|k: int| 0 <= k < w.push(q.last()).len() implies #[trigger] w.push(q.last())[k] < m by {
                if k < w.len() {
                    assert(w.push(q.last())[k] == w[k]);
                }
            }
        }
    }
}

/// Removes every occurrence of `x` from the run queue, keeping the order.
fn remove_from_queue(q: &mut Vec<usize>, x: usize)
    ensures
        final(q)@ == without(old(q)@, x),
{
    let ghost orig = q@;
    let mut kept: Vec<usize> = Vec::new();
    let mut i: usize = 0;
    while i < q.len()
        invariant
            q@ == orig,
            i <= q@.len(),
            kept@ == without(orig.subrange(0, i as int), x),
        decreases q@.len() - i,
    {
        proof {
            assert(orig.subrange(0, i as int + 1).drop_last() =~= orig.subrange(0, i as int));
        }
        if q[i] != x {
            kept.push(q[i]);
        }
        i = i + 1;
    }
    assert(orig.subrange(0, i as int) =~= orig);
    *q = kept;
}

/// Blocks the running task, removes it from the run queue and switches to
/// the next ready task.
pub fn block_current_task(s: &mut Scheduler) -> (r: Option<SwitchAction>)
    requires
        old(s).wf(),
    ensures
        final(s).wf(),
        final(s).next_tid == old(s).next_tid,
        old(s).current is None ==> r is None && *final(s) == *old(s),
        old(s).current matches Some(cur) ==> ({
            let blocked = set_state(old(s).tasks(), cur as int, TaskState::Blocked);
            &&& final(s).run_queue@ == without(old(s).run_queue@, cur)
            &&& match ready_from(blocked, search_start(old(s).current), 0) {
                None => r is None && final(s).tasks() == blocked && final(s).current == old(s).current,
                Some(next) => final(s).current == Some(next as usize) && r == Some(
                    SwitchAction::Switch { from: cur, to: next as usize },
                ) && final(s).tasks() == set_state(blocked, next, TaskState::Running),
            }
        }),
{
    match s.current {
        Some(current_idx) => {
            let mut c = s.table.tasks[current_idx];
            c.state = TaskState::Blocked;
            s.table.tasks.set(current_idx, c);
            remove_from_queue(&mut s.run_queue, current_idx);
            proof {
                lemma_without_bound(old(s).run_queue@, current_idx, MAX_TASKS);
            }
            let ghost blocked = s.tasks();
            match find_next_ready_task(s) {
                Some(next_idx) => {
                    proof {
                        lemma_ready_from_range(blocked, search_start(s.current), 0);
                    }
                    let r = switch_to_task(s, next_idx);
                    proof {
                        let marked = set_state(blocked, next_idx as int, TaskState::Running);
                        assert(marked[current_idx as int] == blocked[current_idx as int]);
                    }
                    r
                },
                None => None,
            }
        },
        None => None,
    }
}

/// Makes the first blocked task with id `tid` ready and queues it.
pub fn unblock_task(s: &mut Scheduler, tid: TaskId) -> (r: bool)
    requires
        old(s).wf(),
    ensures
        final(s).wf(),
        final(s).current == old(s).current,
        final(s).next_tid == old(s).next_tid,
        r == exists|i: int| 0 <= i < MAX_TASKS && old(s).tasks()[i].tid == tid && old(s).tasks()[i].state == TaskState::Blocked,
        !r ==> *final(s) == *old(s),
        r ==> exists|i: int| 0 <= i < MAX_TASKS && old(s).tasks()[i].tid == tid && old(s).tasks()[i].state
            == TaskState::Blocked && (forall|j: int| 0 <= j < i ==> !(old(s).tasks()[j].tid == tid
            && #[trigger] old(s).tasks()[j].state == TaskState::Blocked)) && final(s).tasks() == set_state(
            old(s).tasks(), i, TaskState::Ready) && final(s).run_queue@ == old(s).run_queue@.push(i as usize),
{
    let mut i: usize = 0;
    while i < MAX_TASKS
        invariant
            s.wf(),
            *s == *old(s),
            i <= MAX_TASKS,
            forall|j: int| 0 <= j < i ==> !(s.tasks()[j].tid == tid && #[trigger] s.tasks()[j].state == TaskState::Blocked),
        decreases MAX_TASKS - i,
    {
        if s.table.tasks[i].tid == tid && s.table.tasks[i].state == TaskState::Blocked {
            let ghost before = s.tasks();
            let mut t = s.table.tasks[i];
            t.state = TaskState::Ready;
            s.table.tasks.set(i, t);
            s.run_queue.push(i);
            proof {
                assert(s.tasks() =~= set_state(before, i as int, TaskState::Ready));
                assert(old(s).tasks()[i as int].tid == tid && old(s).tasks()[i as int].state == TaskState::Blocked);
            }
            return true;
        }
        i = i + 1;
    }
    false
}

/// What ending the running task does to the scheduler and which switch
/// it asks for (see `terminate_current_task`).
pub open spec fn terminate_effect(before: Scheduler, after: Scheduler, r: Option<SwitchAction>) -> bool {
    &&& (after.next_tid == before.next_tid)
    &&& (before.current is None ==> r is None && after == before)
    &&& (before.current matches Some(cur) ==> ({
                let ended = set_state(before.tasks(), cur as int, TaskState::Terminated);
                &&& after.run_queue@ == without(before.run_queue@, cur)
                &&& match ready_from(ended, 0, 0) {
                    None => r is None && after.tasks() == ended && after.current is None,
                    Some(next) => after.current == Some(next as usize) && r == Some(
                        SwitchAction::Start { to: next as usize },
                    ) && after.tasks() == set_state(ended, next, TaskState::Running),
                }
            }))
}

/// Ends the running task: its slot is freed, it leaves the run queue and the
/// next ready task is started.  The stack's memory is the caller's to clear.
pub fn terminate_current_task(s: &mut Scheduler) -> (r: Option<SwitchAction>)
    requires
        old(s).wf(),
    ensures
        final(s).wf(),
        terminate_effect(*old(s), *final(s), r),
{
    match s.current {
        Some(current_idx) => {
            let mut c = s.table.tasks[current_idx];
            c.state = TaskState::Terminated;
            s.table.tasks.set(current_idx, c);
            remove_from_queue(&mut s.run_queue, current_idx);
            proof {
                lemma_without_bound(old(s).run_queue@, current_idx, MAX_TASKS);
            }
            s.current = None;
            let ghost ended = s.tasks();
            match find_next_ready_task(s) {
                Some(next_idx) => {
                    proof {
                        lemma_ready_from_range(ended, 0, 0);
                    }
                    switch_to_task(s, next_idx)
                },
                None => None,
            }
        },
        None => None,
    }
}

/// Runs a pending reschedule: the preemption check of the scheduler.
pub fn check_and_schedule(p: &mut PreemptionState, t: &mut TimerState, s: &mut Scheduler) -> (r: Option<SwitchAction>)
    requires
        old(s).wf(),
        old(p).count < u64::MAX,
    ensures
        final(s).wf(),
        final(p).enabled == old(p).enabled,
        final(t).tick_count == old(t).tick_count,
        final(t).frequency == old(t).frequency,
        !(old(p).pending || old(t).need_reschedule) ==> r is None && *final(s) == *old(s)
            && final(p).count == old(p).count && final(p).slice_ticks == old(p).slice_ticks
            && !final(p).pending && !final(t).need_reschedule,
        (old(p).pending || old(t).need_reschedule) && !old(p).enabled ==> r is None && *final(s)
            == *old(s) && final(p).pending && final(t).need_reschedule && final(p).count == old(p).count
            && final(p).slice_ticks == old(p).slice_ticks,
        (old(p).pending || old(t).need_reschedule) && old(p).enabled ==> final(p).count == old(p).count
            + 1 && final(p).slice_ticks == 0 && !final(p).pending && !final(t).need_reschedule
            && yield_effect(*old(s), *final(s), r),
{
    crate::nexis_kernel::scheduler::preemptive::check_preemption(p, t, s)
}

/// Id of the running task.
pub fn current_task_id(s: &Scheduler) -> (r: Option<TaskId>)
    requires
        s.wf(),
    ensures
        r == (match s.current {
            Some(i) => Some(s.tasks()[i as int].tid),
            None => None,
        }),
{
    match s.current {
        Some(i) => Some(s.table.tasks[i].tid),
        None => None,
    }
}

/// Number of tasks in each state; the total counts the live ones.
pub fn get_stats(s: &Scheduler) -> (r: SchedulerStats)
    requires
        s.wf(),
    ensures
        r.ready_tasks == count_in_state(s.tasks(), TaskState::Ready),
        r.running_tasks == count_in_state(s.tasks(), TaskState::Running),
        r.blocked_tasks == count_in_state(s.tasks(), TaskState::Blocked),
        r.terminated_tasks == count_in_state(s.tasks(), TaskState::Terminated),
        r.total_tasks == r.ready_tasks + r.running_tasks + r.blocked_tasks,
{
    let mut stats = SchedulerStats::default();
    let mut i: usize = 0;
    while i < MAX_TASKS
        invariant
            s.wf(),
            i <= MAX_TASKS,
            stats.ready_tasks == count_in_state(s.tasks().subrange(0, i as int), TaskState::Ready),
            stats.running_tasks == count_in_state(s.tasks().subrange(0, i as int), TaskState::Running),
            stats.blocked_tasks == count_in_state(s.tasks().subrange(0, i as int), TaskState::Blocked),
            stats.terminated_tasks == count_in_state(s.tasks().subrange(0, i as int), TaskState::Terminated),
            stats.ready_tasks + stats.running_tasks + stats.blocked_tasks + stats.terminated_tasks == i,
            stats.total_tasks == 0,
        decreases MAX_TASKS - i,
    {
        assert(s.tasks().subrange(0, i as int + 1).drop_last() =~= s.tasks().subrange(0, i as int));
        match s.table.tasks[i].state {
            TaskState::Ready => stats.ready_tasks = stats.ready_tasks + 1,
            TaskState::Running => stats.running_tasks = stats.running_tasks + 1,
            TaskState::Blocked => stats.blocked_tasks = stats.blocked_tasks + 1,
            TaskState::Terminated => stats.terminated_tasks = stats.terminated_tasks + 1,
        }
        i = i + 1;
    }
    assert(s.tasks().subrange(0, i as int) =~= s.tasks());
    stats.total_tasks = stats.ready_tasks + stats.running_tasks + stats.blocked_tasks;
    stats
}

} // verus!
