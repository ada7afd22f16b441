//! Kernel heap: a first-fit allocator over a list of free blocks.
use vstd::prelude::*;
use vstd::arithmetic::power2::{pow2, lemma_pow2_unfold, lemma_pow2_pos};
use vstd::bits::{low_bits_mask, lemma_usize_low_bits_mask_is_mod};
use vstd::arithmetic::div_mod::{lemma_fundamental_div_mod, lemma_mod_multiples_basic};
use crate::nexis_kernel::memory::{MemoryError, Result, FRAME_SIZE, allocate_frame, frames_ok};
use crate::nexis_kernel::memory::frame_allocator::{BitmapFrameAllocator, allocate_n, count_free,
    lemma_count_free_positive, lemma_allocate_n_step, lemma_allocate_n_full, lemma_allocate_n_count,
    allocate_first_free};

verus! {

/// A power of two, in the form std's `Layout` checks it.
pub open spec fn is_power_of_two(a: usize) -> bool {
    a > 0 && a & ((a - 1) as usize) == 0
}

/// The smallest multiple of `align` that is at least `a`.
pub open spec fn round_up(a: int, align: int) -> int {
    (a + align - 1) - (a + align - 1) % align
}

/// Start of the kernel heap in the higher half.
pub const HEAP_START: u64 = 0xFFFF_8000_0000_0000;

/// Initial heap size (16 MiB).
pub const HEAP_SIZE: usize = 16 * 1024 * 1024;

/// Maximum heap size (1 GiB).
pub const MAX_HEAP_SIZE: usize = 1024 * 1024 * 1024;

/// Size of the header a free block keeps in its own memory: blocks smaller
/// than this are not tracked.
pub const MIN_BLOCK_SIZE: usize = 16;

/// A free block of heap memory.
#[derive(Clone, Copy, Debug, PartialEq, Eq, Structural)]
pub struct FreeBlock {
    pub addr: usize,
    pub size: usize,
}

/// The free list after adding a block at its head; blocks too small to hold
/// a header are dropped.
pub open spec fn push_block(s: Seq<FreeBlock>, addr: int, size: int) -> Seq<FreeBlock> {
    if size < MIN_BLOCK_SIZE {
        s
    } else {
        seq![FreeBlock { addr: addr as usize, size: size as usize }] + s
    }
}

/// Index of the first block, from `i` on, of at least `req` bytes.
pub open spec fn first_fit_from(s: Seq<FreeBlock>, req: usize, i: int) -> Option<int>
    decreases s.len() - i,
{
    if i < 0 || i >= s.len() {
        None
    } else if s[i].size >= req {
        Some(i)
    } else {
        first_fit_from(s, req, i + 1)
    }
}

/// Index of the first block, from the head, of at least `req` bytes.
pub open spec fn first_fit(s: Seq<FreeBlock>, req: usize) -> Option<int> {
    first_fit_from(s, req, 0)
}

/// Total size of the blocks in a free list.
pub open spec fn free_sum(s: Seq<FreeBlock>) -> int
    decreases s.len(),
{
    if s.len() == 0 {
        0
    } else {
        free_sum(s.drop_last()) + s.last().size
    }
}

proof fn lemma_free_sum_push_front(b: FreeBlock, s: Seq<FreeBlock>)
    ensures
        free_sum(seq![b] + s) == b.size + free_sum(s),
    decreases s.len(),
{
    let t = seq![b] + s;
    if s.len() > 0 {
        assert(t.drop_last() =~= seq![b] + s.drop_last());
        assert(t.last() == s.last());
        lemma_free_sum_push_front(b, s.drop_last());
        assert(free_sum(t) == free_sum(t.drop_last()) + t.last().size);
    } else {
        assert(t.drop_last() =~= Seq::<FreeBlock>::empty());
        assert(t.last() == b);
        assert(free_sum(t) == free_sum(t.drop_last()) + t.last().size);
    }
}

proof fn lemma_free_sum_remove(s: Seq<FreeBlock>, i: int)
    requires
        0 <= i < s.len(),
    ensures
        free_sum(s.remove(i)) == free_sum(s) - s[i].size,
    decreases s.len(),
{
    if i == s.len() - 1 {
        assert(s.remove(i) =~= s.drop_last());
    } else {
        assert(s.remove(i).drop_last() =~= s.drop_last().remove(i));
        lemma_free_sum_remove(s.drop_last(), i);
    }
}

proof fn lemma_free_sum_nonneg(s: Seq<FreeBlock>)
    ensures
        free_sum(s) >= 0,
    decreases s.len(),
{
    if s.len() > 0 {
        lemma_free_sum_nonneg(s.drop_last());
    }
}

proof fn lemma_first_fit_found(s: Seq<FreeBlock>, req: usize, i: int)
    requires
        0 <= i,
        first_fit_from(s, req, i) matches Some(k),
    ensures
        first_fit_from(s, req, i) matches Some(k) && i <= k < s.len() && s[k].size >= req,
    decreases s.len() - i,
{
    if i < s.len() && s[i].size < req {
        lemma_first_fit_found(s, req, i + 1);
    }
}

proof fn lemma_round_up(a: int, align: int)
    requires
        a >= 0,
        align > 0,
    ensures
        a <= round_up(a, align) < a + align,
        round_up(a, align) % align == 0,
{
    let x = a + align - 1;
    lemma_fundamental_div_mod(x, align);
    assert(round_up(a, align) == align * (x / align));
    lemma_mod_multiples_basic(x / align, align);
    assert((x / align) * align == align * (x / align)) by (nonlinear_arith);
}

proof fn lemma_power_of_two_is_pow2(a: usize) -> (n: nat)
    requires
        is_power_of_two(a),
    ensures
        n < usize::BITS,
        a == pow2(n),
    decreases a,
{
    if a == 1 {
        vstd::arithmetic::power2::lemma2_to64();
        0
    } else {
        let m = (a - 1) as usize;
        assert(a % 2 == 0 && (a >> 1usize) > 0 && (a >> 1usize) & (((a >> 1usize) - 1usize) as usize) == 0
            && (a >> 1usize) == a / 2) by (bit_vector)
            requires
                a > 1,
                a & m == 0,
                m == a - 1,
        ;
        let h = a >> 1usize;
        let n = lemma_power_of_two_is_pow2(h);
        lemma_pow2_unfold(n + 1);
        if n + 1 >= usize::BITS {
            vstd::arithmetic::power2::lemma2_to64();
            assert(usize::BITS == 32 || usize::BITS == 64);
            if usize::BITS == 64 {
                assert(usize::MAX == 0xffff_ffff_ffff_ffff);
            } else {
                assert(usize::MAX == 0xffff_ffff);
            }
            assert(false);
        }
        n + 1
    }
}

/// The free blocks lie inside the heap and are large enough to be tracked.
pub open spec fn blocks_in(s: Seq<FreeBlock>, start: int, end: int) -> bool {
    forall|k: int|
        0 <= k < s.len() ==> start <= (#[trigger] s[k]).addr && s[k].addr + s[k].size <= end
            && s[k].size >= MIN_BLOCK_SIZE
}

/// First-fit heap allocator over a list of free blocks.
pub struct HeapAllocator {
    heap_start: usize,
    heap_size: usize,
    allocated_size: usize,
    free_list: Vec<FreeBlock>,
}

/// Heap statistics.
#[derive(Debug, Clone, Copy, PartialEq, Eq, Structural)]
pub struct HeapStats {
    pub total_size: usize,
    pub allocated_size: usize,
    pub free_size: usize,
}

impl HeapAllocator {
    /// Start address of the heap.
    pub closed spec fn start(&self) -> usize {
        self.heap_start
    }

    /// Current heap size in bytes.
    pub closed spec fn size(&self) -> usize {
        self.heap_size
    }

    /// Bytes handed out and not returned.
    pub closed spec fn allocated(&self) -> usize {
        self.allocated_size
    }

    /// The free list, head first.
    pub closed spec fn blocks(&self) -> Seq<FreeBlock> {
        self.free_list@
    }

    /// Start address of the heap.
    pub fn start_addr(&self) -> (r: usize)
        ensures
            r == self.start(),
    {
        self.heap_start
    }

    /// End address of the heap.
    pub fn end_addr(&self) -> (r: usize)
        requires
            self.inv(),
        ensures
            r == self.start() + self.size(),
    {
        self.heap_start + self.heap_size
    }

    /// Bytes handed out.
    pub fn allocated_bytes(&self) -> (r: usize)
        ensures
            r == self.allocated(),
    {
        self.allocated_size
    }

    /// Internal consistency: the heap can grow to its maximum without
    /// leaving the address space, and free plus allocated bytes never exceed
    /// the heap.
    pub open spec fn inv(&self) -> bool {
        &&& self.start() + MAX_HEAP_SIZE <= usize::MAX
        &&& self.size() <= MAX_HEAP_SIZE
        &&& blocks_in(self.blocks(), self.start() as int, self.start() + self.size())
        &&& free_sum(self.blocks()) + self.allocated() <= self.size()
    }

    /// A heap over `[start, start + size)` with one free block covering it.
    pub fn new(start: usize, size: usize) -> (r: Self)
        requires
            start + MAX_HEAP_SIZE <= usize::MAX,
            size <= MAX_HEAP_SIZE,
        ensures
            r.inv(),
            r.start() == start,
            r.size() == size,
            r.allocated() == 0,
            r.blocks() == push_block(Seq::empty(), start as int, size as int),
    {
        let mut a = Self { heap_start: start, heap_size: size, allocated_size: 0, free_list: Vec::new() };
        a.add_block(start, size);
        proof {
            if size >= MIN_BLOCK_SIZE {
                lemma_free_sum_push_front(FreeBlock { addr: start, size }, Seq::empty());
            }
        }
        a
    }

    /// Adds a free block at the head of the list, unless it is too small to track.
    fn add_block(&mut self, addr: usize, size: usize)
        ensures
            final(self).heap_start == old(self).heap_start,
            final(self).heap_size == old(self).heap_size,
            final(self).allocated_size == old(self).allocated_size,
            final(self).blocks() == push_block(old(self).blocks(), addr as int, size as int),
    {
        if size < MIN_BLOCK_SIZE {
            return;
        }
        self.free_list.insert(0, FreeBlock { addr, size });
        assert(self.free_list@ =~= seq![FreeBlock { addr, size }] + old(self).free_list@);
    }

    /// Removes and returns the first block, from the head, of at least `req` bytes.
    fn find_block(&mut self, req: usize) -> (r: Option<FreeBlock>)
        ensures
            final(self).heap_start == old(self).heap_start,
            final(self).heap_size == old(self).heap_size,
            final(self).allocated_size == old(self).allocated_size,
            first_fit(old(self).blocks(), req) is None ==> r is None && final(self).blocks()
                == old(self).blocks(),
            first_fit(old(self).blocks(), req) matches Some(i) ==> (0 <= i < old(self).blocks().len()
                && r == Some(old(self).blocks()[i]) && final(self).blocks() == old(
            self).blocks().remove(i)),
    {
        let mut i: usize = 0;
        while i < self.free_list.len()
            invariant
                i <= self.free_list@.len(),
                self.free_list@ == old(self).free_list@,
                self.heap_start == old(self).heap_start,
                self.heap_size == old(self).heap_size,
                self.allocated_size == old(self).allocated_size,
                first_fit(self.free_list@, req) == first_fit_from(self.free_list@, req, i as int),
            decreases self.free_list@.len() - i,
        {
            if self.free_list[i].size >= req {
                proof {
                    lemma_first_fit_found(self.free_list@, req, 0);
                }
                let b = self.free_list.remove(i);
                return Some(b);
            }
            i = i + 1;
        }
        None
    }

    /// Allocates `size` bytes aligned to `align`, first fit; when no block
    /// fits, the heap grows by whole frames taken from `frames` and the
    /// search is repeated once.
    #[verifier::rlimit(100)]
    #[verifier::spinoff_prover]
    pub fn allocate(&mut self, frames: &mut Option<BitmapFrameAllocator>, size: usize, align: usize) -> (r: Option<usize>)
        requires
            old(self).inv(),
            frames_ok(*old(frames)),
            is_power_of_two(align),
            size + FRAME_SIZE + MAX_HEAP_SIZE <= usize::MAX,
            old(self).start() + MAX_HEAP_SIZE + align <= usize::MAX,
        ensures
            final(self).inv(),
            frames_ok(*final(frames)),
            final(self).start() == old(self).start(),
            r matches Some(a) ==> (a as int) % (align as int) == 0,
            ({
                let (res, nsize, nalloc, nblocks, taken) = alloc_result(old(self).start() as int,
                    old(self).size() as int, old(self).allocated() as int, old(self).blocks(),
                    avail(*old(frames)), size, align);
                &&& r == res
                &&& final(self).size() == nsize
                &&& final(self).allocated() == nalloc
                &&& final(self).blocks() == nblocks
                &&& frames_after(*old(frames), *final(frames), taken)
            }),
    {
        let req = if size > MIN_BLOCK_SIZE { size } else { MIN_BLOCK_SIZE };
        let ghost old_blocks = self.blocks();
        match self.find_block(size) {
            Some(b) => {
                proof {
                    lemma_first_fit_found(old_blocks, size, 0);
                    let i = first_fit(old_blocks, size)->0;
                    lemma_free_sum_remove(old_blocks, i);
                    lemma_free_sum_nonneg(self.blocks());
                    lemma_round_up(b.addr as int, align as int);
                    lemma_mask_round_down((b.addr + align - 1) as usize, align);
                }
                let aligned = (b.addr + align - 1) & !(align - 1);
                let padding = aligned - b.addr;
                if b.size >= req && b.size - req >= padding {
                    let leftover = b.size - req - padding;
                    let ghost mid = self.blocks();
                    self.add_block(aligned + req, leftover);
                    proof {
                        if leftover >= MIN_BLOCK_SIZE {
                            lemma_free_sum_push_front(FreeBlock { addr: (aligned + req) as usize, size: leftover }, mid);
                        }
                    }
                    let ghost mid2 = self.blocks();
                    self.add_block(b.addr, padding);
                    proof {
                        if padding >= MIN_BLOCK_SIZE {
                            lemma_free_sum_push_front(FreeBlock { addr: b.addr, size: padding }, mid2);
                        }
                    }
                    self.allocated_size = self.allocated_size + req;
                    return Some(aligned);
                }
            },
            None => {},
        }
        let ghost before_grow = self.blocks();
        proof {
            lemma_free_sum_nonneg(before_grow);
        }
        match self.grow_heap(frames, size) {
            Ok(()) => {},
            Err(_) => {
                return None;
            },
        }
        let ghost grown = self.blocks();
        match self.find_block(size) {
            Some(b) => {
                proof {
                    lemma_first_fit_found(grown, size, 0);
                    let i = first_fit(grown, size)->0;
                    lemma_free_sum_remove(grown, i);
                    lemma_round_up(b.addr as int, align as int);
                    lemma_mask_round_down((b.addr + align - 1) as usize, align);
                }
                let aligned = (b.addr + align - 1) & !(align - 1);
                self.allocated_size = self.allocated_size + req;
                Some(aligned)
            },
            None => None,
        }
    }

    /// Returns `size` bytes at `addr` to the free list.
    pub fn deallocate(&mut self, addr: usize, size: usize)
        requires
            old(self).inv(),
            old(self).start() <= addr,
            addr + (if size > MIN_BLOCK_SIZE { size } else { MIN_BLOCK_SIZE }) <= old(self).start()
                + old(self).size(),
            (if size > MIN_BLOCK_SIZE { size } else { MIN_BLOCK_SIZE }) <= old(self).allocated(),
        ensures
            final(self).inv(),
            final(self).start() == old(self).start(),
            final(self).size() == old(self).size(),
            final(self).allocated() == old(self).allocated() - (if size > MIN_BLOCK_SIZE { size } else { MIN_BLOCK_SIZE }),
            final(self).blocks() == push_block(old(self).blocks(), addr as int, (if size
                > MIN_BLOCK_SIZE { size } else { MIN_BLOCK_SIZE }) as int),
    {
        let req = if size > MIN_BLOCK_SIZE { size } else { MIN_BLOCK_SIZE };
        let ghost before = self.blocks();
        self.add_block(addr, req);
        proof {
            lemma_free_sum_push_front(FreeBlock { addr, size: req }, before);
        }
        self.allocated_size = self.allocated_size - req;
    }

    /// Grows the heap by enough whole frames for `min_size` bytes, taking the
    /// frames from `frames`; the new space becomes one free block.
    pub fn grow_heap(&mut self, frames: &mut Option<BitmapFrameAllocator>, min_size: usize) -> (r: Result<()>)
        requires
            old(self).inv(),
            frames_ok(*old(frames)),
            min_size + FRAME_SIZE + MAX_HEAP_SIZE <= usize::MAX,
        ensures
            final(self).inv(),
            frames_ok(*final(frames)),
            final(self).start() == old(self).start(),
            final(self).allocated() == old(self).allocated(),
            ({
                let (ok, nsize, nblocks, taken) = grow_result(old(self).start() as int,
                    old(self).size() as int, old(self).blocks(), avail(*old(frames)), min_size);
                &&& (r is Ok <==> ok)
                &&& r is Err ==> r == Err::<(), MemoryError>(MemoryError::OutOfMemory)
                &&& final(self).size() == nsize
                &&& final(self).blocks() == nblocks
                &&& frames_after(*old(frames), *final(frames), taken)
            }),
    {
        let current_end = self.heap_start + self.heap_size;
        let pages_needed = (min_size + FRAME_SIZE - 1) / FRAME_SIZE;
        proof {
            assert(pages_needed * FRAME_SIZE <= min_size + FRAME_SIZE - 1) by (nonlinear_arith)
                requires pages_needed == (min_size + FRAME_SIZE - 1) / FRAME_SIZE as int;
        }
        let new_size = pages_needed * FRAME_SIZE;
        if self.heap_size + new_size > MAX_HEAP_SIZE {
            return Err(MemoryError::OutOfMemory);
        }
        let ghost start_frames = *frames;
        let mut i: usize = 0;
        while i < pages_needed
            invariant
                frames_ok(*frames),
                *self == *old(self),
                self.inv(),
                start_frames == *old(frames),
                pages_needed == pages_for(min_size),
                new_size == pages_needed * FRAME_SIZE,
                self.heap_size + new_size <= MAX_HEAP_SIZE,
                i <= pages_needed,
                start_frames is None ==> *frames is None && i == 0,
                start_frames matches Some(a) ==> (*frames matches Some(b) && b@ == allocate_n(a@, i as nat)
                    && b.start() == a.start() && b.count() == a.count() && i <= count_free(a@)),
            decreases pages_needed - i,
        {
            let ghost cur = *frames;
            let f = allocate_frame(frames);
            proof {
                if let Some(a) = start_frames {
                    lemma_allocate_n_step(a@, i as nat);
                    lemma_allocate_n_count(a@, i as nat);
                }
            }
            if f.is_none() {
                proof {
                    if let Some(a) = start_frames {
                        let b = cur->0;
                        assert(count_free(b@) == 0);
                        lemma_count_free_positive(b@);
                        b.lemma_view_len();
                        assert forall|k: int| 0 <= k < b@.len() implies #[trigger] b@[k] by {}
                        lemma_allocate_n_full(b@, (pages_needed - i) as nat);
                        lemma_allocate_n_add(a@, i as nat, (pages_needed - i) as nat);
                    }
                }
                return Err(MemoryError::OutOfMemory);
            }
            i = i + 1;
        }
        let ghost before = self.blocks();
        self.add_block(current_end, new_size);
        proof {
            if new_size >= MIN_BLOCK_SIZE {
                lemma_free_sum_push_front(FreeBlock { addr: current_end, size: new_size }, before);
            }
        }
        self.heap_size = self.heap_size + new_size;
        Ok(())
    }

    /// Heap statistics.
    pub fn stats(&self) -> (r: HeapStats)
        requires
            self.inv(),
        ensures
            r.total_size == self.size(),
            r.allocated_size == self.allocated(),
            r.free_size == self.size() - self.allocated(),
    {
        proof {
            lemma_free_sum_nonneg(self.blocks());
        }
        HeapStats {
            total_size: self.heap_size,
            allocated_size: self.allocated_size,
            free_size: self.heap_size - self.allocated_size,
        }
    }
}

/// A size and alignment that `core::alloc::Layout` accepts: a power-of-two
/// alignment, and the size rounded up to it no larger than `isize::MAX`.
pub open spec fn layout_ok(size: usize, align: usize) -> bool {
    is_power_of_two(align) && round_up(size as int, align as int) <= isize::MAX
}

/// Checks a size and alignment the way `Layout::from_size_align` does.
pub fn layout_valid(size: usize, align: usize) -> (r: bool)
    ensures
        r == layout_ok(size, align),
{
    if align == 0 || align & (align - 1) != 0 {
        return false;
    }
    let x: u128 = size as u128 + (align as u128 - 1);
    let rounded: u128 = x - x % (align as u128);
    rounded <= isize::MAX as u128
}

/// Heap statistics of the system heap, if it is set up.
pub fn heap_stats(heap: &Option<HeapAllocator>) -> (r: Option<HeapStats>)
    requires
        heap matches Some(h) ==> h.inv(),
    ensures
        heap is None ==> r is None,
        heap matches Some(h) ==> (r matches Some(st) && st.total_size == h.size()
            && st.allocated_size == h.allocated() && st.free_size == h.size() - h.allocated()),
{
    match heap {
        Some(h) => Some(h.stats()),
        None => None,
    }
}

/// What an aligned allocation does to the heap and the frames, and the
/// address it gives (see `alloc_aligned`): nothing for a bad layout or no
/// heap, else the heap's first-fit allocation, growing it when needed.
pub open spec fn aligned_alloc_effect(
    heap0: Option<HeapAllocator>,
    frames0: Option<BitmapFrameAllocator>,
    heap1: Option<HeapAllocator>,
    frames1: Option<BitmapFrameAllocator>,
    size: usize,
    align: usize,
    r: Option<usize>,
) -> bool {
    &&& r matches Some(a) ==> (a as int) % (align as int) == 0
    &&& !layout_ok(size, align) ==> r is None && heap1 == heap0 && frames1 == frames0
    &&& heap0 is None ==> r is None && heap1 is None && frames1 == frames0
    &&& layout_ok(size, align) ==> (heap0 matches Some(h) ==> (heap1 matches Some(h2) && h2.inv()
        && h2.start() == h.start() && ({
        let (res, nsize, nalloc, nblocks, taken) = alloc_result(h.start() as int, h.size() as int,
            h.allocated() as int, h.blocks(), avail(frames0), size, align);
        &&& r == res
        &&& h2.size() == nsize
        &&& h2.allocated() == nalloc
        &&& h2.blocks() == nblocks
        &&& frames_after(frames0, frames1, taken)
    })))
}

/// Allocates `size` bytes aligned to `align` from the system heap; `None`
/// when the size and alignment do not form a valid layout, when there is no
/// heap, or when the heap cannot satisfy the request.
pub fn alloc_aligned(heap: &mut Option<HeapAllocator>, frames: &mut Option<BitmapFrameAllocator>, size: usize, align: usize) -> (r: Option<usize>)
    requires
        *old(heap) matches Some(h) ==> h.inv() && h.start() + MAX_HEAP_SIZE + align <= usize::MAX,
        frames_ok(*old(frames)),
    ensures
        frames_ok(*final(frames)),
        aligned_alloc_effect(*old(heap), *old(frames), *final(heap), *final(frames), size, align, r),
{
    if !layout_valid(size, align) {
        return None;
    }
    proof {
        lemma_round_up(size as int, align as int);
        assert(isize::MAX + FRAME_SIZE + MAX_HEAP_SIZE <= usize::MAX);
    }
    match heap {
        Some(h) => h.allocate(frames, size, align),
        None => None,
    }
}

/// Returns `size` bytes at `addr`, allocated with alignment `align`, to the
/// system heap; nothing happens for an invalid layout or a missing heap.
pub fn dealloc_aligned(heap: &mut Option<HeapAllocator>, addr: usize, size: usize, align: usize)
    requires
        *old(heap) matches Some(h) ==> h.inv() && h.start() <= addr && addr + (if size
            > MIN_BLOCK_SIZE { size } else { MIN_BLOCK_SIZE }) <= h.start() + h.size() && (if size
            > MIN_BLOCK_SIZE { size } else { MIN_BLOCK_SIZE }) <= h.allocated(),
    ensures
        !layout_ok(size, align) || *old(heap) is None ==> *final(heap) == *old(heap),
        layout_ok(size, align) ==> (*old(heap) matches Some(h) ==> (*final(heap) matches Some(h2)
            && h2.inv() && h2.start() == h.start() && h2.size() == h.size() && h2.allocated()
            == h.allocated() - (if size > MIN_BLOCK_SIZE { size } else { MIN_BLOCK_SIZE })
            && h2.blocks() == push_block(h.blocks(), addr as int, (if size > MIN_BLOCK_SIZE { size } else { MIN_BLOCK_SIZE }) as int))),
{
    if !layout_valid(size, align) {
        return;
    }
    match heap {
        Some(h) => h.deallocate(addr, size),
        None => {},
    }
}

/// Frames a growth by `min_size` bytes needs.
pub open spec fn pages_for(min_size: usize) -> int {
    (min_size + FRAME_SIZE - 1) / FRAME_SIZE as int
}

/// Free frames the system allocator has (none when it is absent).
pub open spec fn avail(frames: Option<BitmapFrameAllocator>) -> int {
    match frames {
        Some(a) => count_free(a@) as int,
        None => 0,
    }
}

/// `after` is `before` after `n` successive frame allocations.
pub open spec fn frames_after(before: Option<BitmapFrameAllocator>, after: Option<BitmapFrameAllocator>, n: nat) -> bool {
    match before {
        Some(a) => after matches Some(b) && b.start() == a.start() && b.count() == a.count()
            && b@ == allocate_n(a@, n),
        None => after is None,
    }
}

/// Growing a heap of `size` bytes at `start` with free list `s` by
/// `min_size` bytes, with `free` frames available: whether it succeeds, the
/// new size, the new free list and how many frames are requested.
pub open spec fn grow_result(start: int, size: int, s: Seq<FreeBlock>, free: int, min_size: usize)
    -> (bool, int, Seq<FreeBlock>, nat)
{
    let pages = pages_for(min_size);
    let new_size = pages * FRAME_SIZE;
    if size + new_size > MAX_HEAP_SIZE {
        (false, size, s, 0)
    } else if pages <= free {
        (true, size + new_size, push_block(s, start + size, new_size), pages as nat)
    } else {
        (false, size, s, pages as nat)
    }
}

/// Allocating `size` bytes aligned to `align` from a heap at `start` of
/// `hsize` bytes, `allocated` of them handed out, with free list `s` and
/// `free` frames available: the address, the new heap size, the allocated
/// bytes, the new free list and how many frames are requested.
pub open spec fn alloc_result(start: int, hsize: int, allocated: int, s: Seq<FreeBlock>, free: int,
    size: usize, align: usize) -> (Option<usize>, int, int, Seq<FreeBlock>, nat)
{
    let req = if size > MIN_BLOCK_SIZE { size as int } else { MIN_BLOCK_SIZE as int };
    let fit = first_fit(s, size);
    let fits = match fit {
        Some(i) => s[i].size >= req + (round_up(s[i].addr as int, align as int) - s[i].addr),
        None => false,
    };
    if fits {
        let i = fit->0;
        let b = s[i];
        let aligned = round_up(b.addr as int, align as int);
        let padding = aligned - b.addr;
        (Some(aligned as usize), hsize, allocated + req,
            push_block(push_block(s.remove(i), aligned + req, b.size - req - padding), b.addr as int, padding), 0)
    } else {
        let rest = match fit {
            Some(i) => s.remove(i),
            None => s,
        };
        let (ok, new_size, grown, taken) = grow_result(start, hsize, rest, free, size);
        if !ok {
            (None, new_size, allocated, grown, taken)
        } else {
            match first_fit(grown, size) {
                Some(j) => (Some(round_up(grown[j].addr as int, align as int) as usize), new_size,
                    allocated + req, grown.remove(j), taken),
                None => (None, new_size, allocated, grown, taken),
            }
        }
    }
}

proof fn lemma_allocate_n_add(s: Seq<bool>, i: nat, j: nat)
    ensures
        allocate_n(s, i + j) == allocate_n(allocate_n(s, i), j),
    decreases i,
{
    if i > 0 {
        lemma_allocate_n_add(allocate_first_free(s), (i - 1) as nat, j);
        assert(allocate_n(s, i + j) == allocate_n(allocate_first_free(s), (i + j - 1) as nat));
    }
}

/// Masking off the bits below a power-of-two alignment rounds down to a multiple of it.
pub proof fn lemma_mask_round_down(x: usize, align: usize)
    requires
        is_power_of_two(align),
    ensures
        x & !((align - 1) as usize) == x - x % align,
{
    let m = (align - 1) as usize;
    let n = lemma_power_of_two_is_pow2(align);
    lemma_usize_low_bits_mask_is_mod(x, n);
    assert(low_bits_mask(n) == m);
    assert(x & !m == x - (x & m)) by (bit_vector);
}

/// A successful allocation counts exactly the bytes that freeing the same
/// size gives back: allocating `size` bytes and then deallocating them
/// leaves the count of allocated bytes where it was.
pub proof fn law_allocate_then_deallocate_balances(
    start: int,
    hsize: int,
    allocated: int,
    s: Seq<FreeBlock>,
    free: int,
    size: usize,
    align: usize,
)
    requires
        alloc_result(start, hsize, allocated, s, free, size, align).0 is Some,
    ensures
        alloc_result(start, hsize, allocated, s, free, size, align).2 - (if size > MIN_BLOCK_SIZE {
            size as int
        } else {
            MIN_BLOCK_SIZE as int
        }) == allocated,
{
}

} // verus!
