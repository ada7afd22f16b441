//! Task control blocks, the task table and stack setup.
use vstd::prelude::*;
use crate::nexis_kernel::memory::{FRAME_SIZE, PhysFrame, allocate_frame, deallocate_frame, frames_ok};
use crate::nexis_kernel::memory::frame_allocator;
use crate::nexis_kernel::memory::frame_allocator::{BitmapFrameAllocator, count_free, first_free, allocate_n, is_first_free};

verus! {

/// Maximum number of tasks that can exist at once.
pub const MAX_TASKS: usize = 64;

/// Task identifier.
#[derive(Copy, Clone, Debug, PartialEq, Eq, Hash, Structural)]
pub struct TaskId(pub u64);

/// Task execution states.
#[derive(Debug, Clone, Copy, PartialEq, Eq, Structural)]
pub enum TaskState {
    /// Ready to be scheduled.
    Ready,
    /// Currently executing.
    Running,
    /// Waiting for an event.
    Blocked,
    /// Finished; its slot is free.
    Terminated,
}

/// Task control block.
#[derive(Debug, Clone, Copy, PartialEq, Eq, Structural)]
pub struct Task {
    /// Unique task identifier.
    pub tid: TaskId,
    /// Saved stack pointer.
    pub rsp: usize,
    /// Base address of the task's stack.
    pub stack_base: usize,
    /// Size of the task's stack in bytes.
    pub stack_size: usize,
    /// Execution state.
    pub state: TaskState,
}

/// The task that fills an empty slot.
pub open spec fn empty_task() -> Task {
    Task { tid: TaskId(0), rsp: 0, stack_base: 0, stack_size: 0, state: TaskState::Terminated }
}

impl Default for Task {
    fn default() -> (r: Self)
        ensures
            r == empty_task(),
    {
        Task { tid: TaskId(0), rsp: 0, stack_base: 0, stack_size: 0, state: TaskState::Terminated }
    }
}

/// Table of all task slots.
pub struct TaskTable {
    pub tasks: Vec<Task>,
}

/// Index of the first slot in `s` whose state is `st`, if any.
pub open spec fn first_in_state(s: Seq<Task>, st: TaskState) -> Option<int>
    decreases s.len(),
{
    if s.len() == 0 {
        None
    } else if s[0].state == st {
        Some(0)
    } else {
        match first_in_state(s.drop_first(), st) {
            Some(i) => Some(i + 1),
            None => None,
        }
    }
}

/// Number of tasks in `s` in state `st`.
pub open spec fn count_in_state(s: Seq<Task>, st: TaskState) -> nat
    decreases s.len(),
{
    if s.len() == 0 {
        0
    } else {
        count_in_state(s.drop_last(), st) + (if s.last().state == st { 1nat } else { 0nat })
    }
}

/// Index of the first live (not terminated) task with id `tid`, if any.
pub open spec fn find_live(s: Seq<Task>, tid: TaskId) -> Option<int>
    decreases s.len(),
{
    if s.len() == 0 {
        None
    } else if s[0].tid == tid && s[0].state != TaskState::Terminated {
        Some(0)
    } else {
        match find_live(s.drop_first(), tid) {
            Some(i) => Some(i + 1),
            None => None,
        }
    }
}

/// `first_in_state` scanning from `i` agrees with the whole-table answer when
/// no earlier slot matched.
proof fn lemma_first_in_state_skip(s: Seq<Task>, st: TaskState, i: int)
    requires
        0 <= i < s.len(),
        forall|j: int| 0 <= j < i ==> (#[trigger] s[j]).state != st,
    ensures
        s[i].state == st ==> first_in_state(s, st) == Some(i),
        first_in_state(s, st) == (match first_in_state(s.subrange(i, s.len() as int), st) {
            Some(k) => Some(k + i),
            None => None,
        }),
    decreases i,
{
    if i > 0 {
        lemma_first_in_state_skip(s.drop_first(), st, i - 1);
        assert(s.drop_first().subrange(i - 1, s.drop_first().len() as int) =~= s.subrange(i, s.len() as int));
    } else {
        assert(s.subrange(0, s.len() as int) =~= s);
    }
}

proof fn lemma_find_live_skip(s: Seq<Task>, tid: TaskId, i: int)
    requires
        0 <= i < s.len(),
        forall|j: int| 0 <= j < i ==> !((#[trigger] s[j]).tid == tid && s[j].state != TaskState::Terminated),
    ensures
        (s[i].tid == tid && s[i].state != TaskState::Terminated) ==> find_live(s, tid) == Some(i),
        find_live(s, tid) == (match find_live(s.subrange(i, s.len() as int), tid) {
            Some(k) => Some(k + i),
            None => None,
        }),
    decreases i,
{
    if i > 0 {
        lemma_find_live_skip(s.drop_first(), tid, i - 1);
        assert(s.drop_first().subrange(i - 1, s.drop_first().len() as int) =~= s.subrange(i, s.len() as int));
    } else {
        assert(s.subrange(0, s.len() as int) =~= s);
    }
}

proof fn lemma_none_beyond(s: Seq<Task>, st: TaskState)
    requires
        forall|j: int| 0 <= j < s.len() ==> (#[trigger] s[j]).state != st,
    ensures
        first_in_state(s, st) is None,
    decreases s.len(),
{
    if s.len() > 0 {
        assert forall|j: int| 0 <= j < s.drop_first().len() implies (#[trigger] s.drop_first()[j]).state != st by {
            assert(s.drop_first()[j] == s[j + 1]);
        }
        lemma_none_beyond(s.drop_first(), st);
    }
}

proof fn lemma_no_live(s: Seq<Task>, tid: TaskId)
    requires
        forall|j: int| 0 <= j < s.len() ==> !((#[trigger] s[j]).tid == tid && s[j].state != TaskState::Terminated),
    ensures
        find_live(s, tid) is None,
    decreases s.len(),
{
    if s.len() > 0 {
        assert forall|j: int| 0 <= j < s.drop_first().len() implies !((#[trigger] s.drop_first()[j]).tid == tid
            && s.drop_first()[j].state != TaskState::Terminated) by {
            assert(s.drop_first()[j] == s[j + 1]);
        }
        lemma_no_live(s.drop_first(), tid);
    }
}

/// `first_in_state` finds the lowest matching slot.
pub proof fn lemma_first_in_state_spec(s: Seq<Task>, st: TaskState)
    ensures
        first_in_state(s, st) matches Some(i) ==> 0 <= i < s.len() && s[i].state == st && forall|j: int|
            0 <= j < i ==> (#[trigger] s[j]).state != st,
        first_in_state(s, st) is None ==> forall|j: int| 0 <= j < s.len() ==> (#[trigger] s[j]).state != st,
    decreases s.len(),
{
    if s.len() > 0 {
        lemma_first_in_state_spec(s.drop_first(), st);
        if s[0].state != st {
            assert forall|j: int| 0 < j < s.len() implies #[trigger] s[j] == s.drop_first()[j - 1] by {}
        }
    }
}

impl TaskTable {
    /// The table holds exactly `MAX_TASKS` slots.
    pub open spec fn wf(&self) -> bool {
        self.tasks@.len() == MAX_TASKS
    }

    /// A table of terminated, zeroed slots.
    pub fn new() -> (r: Self)
        ensures
            r.wf(),
            r.tasks@ == Seq::new(MAX_TASKS as nat, |i: int| empty_task()),
    {
        let mut tasks: Vec<Task> = Vec::new();
        let mut i: usize = 0;
        while i < MAX_TASKS
            invariant
                i <= MAX_TASKS,
                tasks@ == Seq::new(i as nat, |k: int| empty_task()),
            decreases MAX_TASKS - i,
        {
            tasks.push(Task::default());
            i = i + 1;
        }
        TaskTable { tasks }
    }

    /// The first terminated (free) slot.
    pub fn find_free_slot(&self) -> (r: Option<usize>)
        requires
            self.wf(),
        ensures
            r == (match first_in_state(self.tasks@, TaskState::Terminated) {
                Some(i) => Some(i as usize),
                None => None,
            }),
    {
        let mut i: usize = 0;
        while i < MAX_TASKS
            invariant
                self.wf(),
                i <= MAX_TASKS,
                forall|j: int| 0 <= j < i ==> (#[trigger] self.tasks@[j]).state != TaskState::Terminated,
            decreases MAX_TASKS - i,
        {
            if self.tasks[i].state == TaskState::Terminated {
                proof {
                    lemma_first_in_state_skip(self.tasks@, TaskState::Terminated, i as int);
                }
                return Some(i);
            }
            i = i + 1;
        }
        proof {
            lemma_none_beyond(self.tasks@, TaskState::Terminated);
        }
        None
    }

    /// The slot of the live task with id `tid`.
    pub fn find_task_by_id(&self, tid: TaskId) -> (r: Option<usize>)
        requires
            self.wf(),
        ensures
            r == (match find_live(self.tasks@, tid) {
                Some(i) => Some(i as usize),
                None => None,
            }),
    {
        let mut i: usize = 0;
        while i < MAX_TASKS
            invariant
                self.wf(),
                i <= MAX_TASKS,
                forall|j: int| 0 <= j < i ==> !((#[trigger] self.tasks@[j]).tid == tid
                    && self.tasks@[j].state != TaskState::Terminated),
            decreases MAX_TASKS - i,
        {
            if self.tasks[i].tid == tid && self.tasks[i].state != TaskState::Terminated {
                proof {
                    lemma_find_live_skip(self.tasks@, tid, i as int);
                }
                return Some(i);
            }
            i = i + 1;
        }
        proof {
            lemma_no_live(self.tasks@, tid);
        }
        None
    }

    /// Number of tasks in state `state`.
    pub fn count_tasks_in_state(&self, state: TaskState) -> (r: usize)
        requires
            self.wf(),
        ensures
            r == count_in_state(self.tasks@, state),
    {
        let mut n: usize = 0;
        let mut i: usize = 0;
        while i < self.tasks.len()
            invariant
                self.wf(),
                i <= self.tasks@.len(),
                n == count_in_state(self.tasks@.subrange(0, i as int), state),
                n <= i,
            decreases self.tasks@.len() - i,
        {
            assert(self.tasks@.subrange(0, i as int + 1).drop_last() =~= self.tasks@.subrange(0, i as int));
            if self.tasks[i].state == state {
                n = n + 1;
            }
            i = i + 1;
        }
        assert(self.tasks@.subrange(0, i as int) =~= self.tasks@);
        n
    }
}

/// `s` with every entry whose index is in `idx` marked used.
pub open spec fn marked(s: Seq<bool>, idx: Seq<int>) -> Seq<bool> {
    Seq::new(s.len(), |j: int| if idx.contains(j) { true } else { s[j] })
}

/// What a stack allocation of `pages` frames leaves in an allocator that held
/// `a` and now holds `after`, and what it returns: with enough free frames,
/// the `pages` lowest free frames are taken and the first of them is the
/// base; otherwise nothing is taken.
pub open spec fn stack_allocated(
    a: BitmapFrameAllocator,
    after: Option<BitmapFrameAllocator>,
    pages: usize,
    r: Option<(usize, usize)>,
) -> bool {
    &&& after matches Some(b)
    &&& b.start() == a.start()
    &&& b.count() == a.count()
    &&& (r is Some <==> pages <= count_free(a@))
    &&& (r matches Some((base, size)) ==> base == a.frame_at(first_free(a@)) && size == pages
        * FRAME_SIZE && b@ == allocate_n(a@, pages as nat))
    &&& (r is None ==> b@ == a@)
}

/// Allocates `pages` frames for a stack from `frames`; on a failure the frames
/// taken so far are returned.  The result is the address of the first frame
/// and the stack size.  The frames are taken to be contiguous.
pub fn alloc_stack(frames: &mut Option<BitmapFrameAllocator>, pages: usize) -> (r: Option<(usize, usize)>)
    requires
        frames_ok(*old(frames)),
        pages * FRAME_SIZE <= usize::MAX,
    ensures
        frames_ok(*final(frames)),
        pages == 0 ==> r is None && *final(frames) == *old(frames),
        *old(frames) is None ==> r is None && *final(frames) is None,
        pages > 0 && *old(frames) is Some ==> stack_allocated(old(frames)->0, *final(frames), pages, r),
{
    if pages == 0 {
        return None;
    }
    if frames.is_none() {
        return None;
    }
    let ghost a = frames->0;
    let stack_size = pages * FRAME_SIZE;
    let mut allocated: Vec<PhysFrame> = Vec::new();
    let ghost mut idx: Seq<int> = Seq::empty();
    proof {
        a.lemma_view_len();
        assert(marked(a@, idx) =~= a@);
    }
    let mut i: usize = 0;
    while i < pages
        invariant
            *old(frames) == Some(a),
            a.inv(),
            i <= pages,
            i <= count_free(a@),
            allocated@.len() == i,
            idx.len() == i,
            a@.len() == a.count(),
            *frames matches Some(c) && c.inv() && c.start() == a.start() && c.count() == a.count()
                && c@ == allocate_n(a@, i as nat) && c@ == marked(a@, idx),
            forall|k: int| 0 <= k < i ==> 0 <= #[trigger] idx[k] < a.count() && !a@[idx[k]]
                && allocated@[k].0 == a.frame_at(idx[k]),
            forall|k1: int, k2: int| 0 <= k1 < k2 < i ==> #[trigger] idx[k1] != #[trigger] idx[k2],
            i > 0 ==> allocated@[0].0 == a.frame_at(first_free(a@)),
        decreases pages - i,
    {
        let ghost c = frames->0;
        proof {
            frame_allocator::lemma_allocate_n_count(a@, i as nat);
            frame_allocator::lemma_allocate_n_step(a@, i as nat);
            frame_allocator::lemma_count_free_positive(c@);
        }
        match allocate_frame(frames) {
            Some(f) => {
                proof {
                    let j = first_free(c@);
                    frame_allocator::lemma_first_free_exists(c@);
                    assert(!c@[j]);
                    assert(!idx.contains(j)) by {
                        if idx.contains(j) {
                            let k = choose|k: int| 0 <= k < idx.len() && idx[k] == j;
                            assert(marked(a@, idx)[j]);
                        }
                    }
                    assert(!a@[j]) by {
                        assert(marked(a@, idx)[j] == a@[j]);
                    }
                    let nidx = idx.push(j);
                    assert forall|x: int| 0 <= x < a@.len() implies #[trigger] marked(a@, nidx)[x]
                        == c@.update(j, true)[x] by {
                        if x == j {
                            assert(nidx[idx.len() as int] == j);
                        } else {
                            assert(idx.contains(x) <==> nidx.contains(x)) by {
                                if nidx.contains(x) {
                                    let k = choose|k: int| 0 <= k < nidx.len() && nidx[k] == x;
                                    assert(k < idx.len());
                                    assert(idx[k] == x);
                                }
                                if idx.contains(x) {
                                    let k = choose|k: int| 0 <= k < idx.len() && idx[k] == x;
                                    assert(nidx[k] == x);
                                }
                            }
                        }
                    }
                    assert(marked(a@, nidx) =~= c@.update(j, true));
                    if i == 0 {
                        assert(c@ == a@);
                    }
                    idx = nidx;
                }
                allocated.push(f);
            },
            None => {
                let ghost full = idx;
                proof {
                    assert(count_free(c@) == 0);
                    assert(i == count_free(a@));
                    assert(full.subrange(0, full.len() as int) =~= full);
                }
                let mut k: usize = 0;
                while k < allocated.len()
                    invariant
                        *old(frames) == Some(a),
                        i < pages,
                        i == count_free(a@),
                        a.inv(),
                        k <= allocated@.len(),
                        allocated@.len() == full.len(),
                        a@.len() == a.count(),
                        *frames matches Some(d) && d.inv() && d.start() == a.start() && d.count()
                            == a.count() && d@ == marked(a@, full.subrange(k as int, full.len() as int)),
                        forall|m: int| 0 <= m < full.len() ==> 0 <= #[trigger] full[m] < a.count()
                            && !a@[full[m]] && allocated@[m].0 == a.frame_at(full[m]),
                        forall|k1: int, k2: int| 0 <= k1 < k2 < full.len() ==> #[trigger] full[k1]
                            != #[trigger] full[k2],
                    decreases allocated@.len() - k,
                {
                    let ghost d = frames->0;
                    let ghost rest = full.subrange(k as int, full.len() as int);
                    let ghost next = full.subrange(k as int + 1, full.len() as int);
                    proof {
                        let x = full[k as int];
                        a.lemma_frame_at_index(x);
                        d.lemma_view_len();
                        assert(rest[0] == x);
                        assert(d@[x]);
                        assert forall|y: int| 0 <= y < a@.len() implies #[trigger] marked(a@, next)[y]
                            == d@.update(x, false)[y] by {
                            if y == x {
                                assert(!next.contains(x)) by {
                                    if next.contains(x) {
                                        let m = choose|m: int| 0 <= m < next.len() && next[m] == x;
                                        assert(full[k as int + 1 + m] == full[k as int]);
                                    }
                                }
                            } else {
                                assert(rest.contains(y) <==> next.contains(y)) by {
                                    if rest.contains(y) {
                                        let m = choose|m: int| 0 <= m < rest.len() && rest[m] == y;
                                        assert(m != 0);
                                        assert(next[m - 1] == y);
                                    }
                                    if next.contains(y) {
                                        let m = choose|m: int| 0 <= m < next.len() && next[m] == y;
                                        assert(rest[m + 1] == y);
                                    }
                                }
                            }
                        }
                        assert(marked(a@, next) =~= d@.update(x, false));
                    }
                    deallocate_frame(frames, allocated[k]);
                    k = k + 1;
                }
                proof {
                    assert(marked(a@, full.subrange(full.len() as int, full.len() as int)) =~= a@);
                }
                return None;
            },
        }
        i = i + 1;
    }
    Some((allocated[0].0, stack_size))
}

/// Number of words in a fresh task's initial frame: alignment padding, the
/// entry point and six callee-saved registers.
pub const INITIAL_FRAME_WORDS: usize = 8;

/// The words of a fresh task's initial frame, from the stack pointer upward:
/// r15, r14, r13, r12, rbx and rbp (all zero), the entry point the first
/// switch returns to, and a padding word that keeps the frame 16-byte aligned.
pub fn initial_frame(entry: usize) -> (r: Vec<usize>)
    ensures
        r@ == seq![0usize, 0, 0, 0, 0, 0, entry, 0],
{
    let mut v: Vec<usize> = Vec::new();
    v.push(0);
    v.push(0);
    v.push(0);
    v.push(0);
    v.push(0);
    v.push(0);
    v.push(entry);
    v.push(0);
    assert(v@ =~= seq![0usize, 0, 0, 0, 0, 0, entry, 0]);
    v
}

/// Initial stack pointer of a task whose stack is `[stack_base, stack_base +
/// stack_size)`: the top aligned down to 16 bytes, less the initial frame.
/// The frame from `initial_frame` is stored from the returned address up.
pub fn prepare_stack(entry: usize, stack_base: usize, stack_size: usize) -> (r: usize)
    requires
        stack_base + stack_size <= usize::MAX,
        (stack_base + stack_size) - (stack_base + stack_size) % 16 >= 64,
    ensures
        r == (stack_base + stack_size) - (stack_base + stack_size) % 16 - 64,
        r % 16 == 0,
{
    let top = stack_base + stack_size;
    proof {
        assert(top & !0xFusize == top - top % 16) by (bit_vector);
    }
    let sp = top & !0xF;
    sp - INITIAL_FRAME_WORDS * 8
}

/// With every entry below `i` used, at most `len - i` entries are free.
proof fn lemma_count_free_after_used_prefix(s: Seq<bool>, i: int)
    requires
        0 <= i <= s.len(),
        forall|j: int| 0 <= j < i ==> #[trigger] s[j],
    ensures
        count_free(s) <= s.len() - i,
    decreases s.len(),
{
    if s.len() > 0 {
        if i < s.len() {
            lemma_count_free_after_used_prefix(s.drop_last(), i);
        } else {
            assert(s[i - 1]);
            lemma_count_free_after_used_prefix(s.drop_last(), i - 1);
        }
    }
}

/// `n` free frames fit after the lowest free one.
pub proof fn lemma_room_after_first_free(s: Seq<bool>, n: nat)
    requires
        0 < n <= count_free(s),
    ensures
        is_first_free(s, first_free(s)),
        first_free(s) + n <= s.len(),
{
    frame_allocator::lemma_count_free_positive(s);
    frame_allocator::lemma_first_free_exists(s);
    lemma_count_free_after_used_prefix(s, first_free(s));
}

/// The stack a task holds, as `alloc_stack` reports one.
pub open spec fn stack_of(r: Option<Task>) -> Option<(usize, usize)> {
    match r {
        Some(t) => Some((t.stack_base, t.stack_size)),
        None => None,
    }
}

/// A ready kernel task with a fresh stack of `stack_pages` frames, or `None`
/// when the stack cannot be allocated.  Its id is assigned by the scheduler.
pub fn create_kernel_task(entry: usize, stack_pages: usize, frames: &mut Option<BitmapFrameAllocator>) -> (r: Option<Task>)
    requires
        frames_ok(*old(frames)),
        stack_pages * FRAME_SIZE <= usize::MAX,
    ensures
        frames_ok(*final(frames)),
        stack_pages == 0 ==> r is None && *final(frames) == *old(frames),
        *old(frames) is None ==> r is None && *final(frames) is None,
        stack_pages > 0 && *old(frames) is Some ==> stack_allocated(
            old(frames)->0,
            *final(frames),
            stack_pages,
            stack_of(r),
        ),
        r matches Some(t) ==> t.tid == TaskId(0) && t.state == TaskState::Ready && t.rsp == (
        t.stack_base + t.stack_size) - (t.stack_base + t.stack_size) % 16 - 64,
{
    let ghost before = *frames;
    match alloc_stack(frames, stack_pages) {
        Some((stack_base, stack_size)) => {
            proof {
                let a = before->0;
                lemma_room_after_first_free(a@, stack_pages as nat);
                a.lemma_view_len();
                a.lemma_frame_at_index(first_free(a@));
                assert(first_free(a@) * FRAME_SIZE + stack_pages * FRAME_SIZE <= a.count() * FRAME_SIZE)
                    by (nonlinear_arith)
                    requires first_free(a@) + stack_pages <= a.count();
            }
            if stack_base > usize::MAX - stack_size {
                return None;
            }
            let rsp = prepare_stack(entry, stack_base, stack_size);
            Some(Task { tid: TaskId(0), rsp, stack_base, stack_size, state: TaskState::Ready })
        },
        None => None,
    }
}

/// Task-specific errors.
#[derive(Debug, Clone, Copy, PartialEq, Eq, Structural)]
pub enum TaskError {
    /// No free task slots.
    NoFreeSlots,
    /// Stack allocation failed.
    StackAllocationFailed,
    /// Invalid task id.
    InvalidTaskId,
    /// Task in the wrong state for the operation.
    InvalidState,
}

} // verus!
