//! Bitmap-based physical frame allocator.
use vstd::prelude::*;
use crate::nexis_kernel::memory::{PhysFrame, MemoryError, Result, FRAME_SIZE};

verus! {

/// Number of frames tracked by one byte of the bitmap.
pub const FRAMES_PER_BYTE: usize = 8;

/// Number of `false` entries (free frames) in a usage map.
pub open spec fn count_free(s: Seq<bool>) -> nat
    decreases s.len(),
{
    if s.len() == 0 {
        0
    } else {
        count_free(s.drop_last()) + (if s.last() { 0nat } else { 1nat })
    }
}

/// Counting is bounded by the length.
pub proof fn lemma_count_free_bounded(s: Seq<bool>)
    ensures
        count_free(s) <= s.len(),
    decreases s.len(),
{
    if s.len() > 0 {
        lemma_count_free_bounded(s.drop_last());
    }
}

/// There is a free entry exactly when the count is positive.
pub proof fn lemma_count_free_positive(s: Seq<bool>)
    ensures
        count_free(s) > 0 <==> exists|i: int| 0 <= i < s.len() && !s[i],
    decreases s.len(),
{
    if s.len() > 0 {
        lemma_count_free_positive(s.drop_last());
        if exists|i: int| 0 <= i < s.drop_last().len() && !s.drop_last()[i] {
            let i = choose|i: int| 0 <= i < s.drop_last().len() && !s.drop_last()[i];
            assert(!s[i]);
        }
        if exists|i: int| 0 <= i < s.len() && !s[i] {
            let i = choose|i: int| 0 <= i < s.len() && !s[i];
            if i < s.len() - 1 {
                assert(!s.drop_last()[i]);
            }
        }
    }
}

/// Flipping one entry changes the count by one.
pub proof fn lemma_count_free_update(s: Seq<bool>, i: int, v: bool)
    requires
        0 <= i < s.len(),
    ensures
        count_free(s.update(i, v)) == count_free(s) + (if s[i] { 0int } else { -1int }) + (if v {
            0int
        } else {
            1int
        }),
    decreases s.len(),
{
    if i == s.len() - 1 {
        assert(s.update(i, v).drop_last() =~= s.drop_last());
    } else {
        assert(s.update(i, v).drop_last() =~= s.drop_last().update(i, v));
        lemma_count_free_update(s.drop_last(), i, v);
    }
}

/// Whether bit `k` of byte `b` is set.
pub open spec fn bit_is_set(b: u8, k: int) -> bool {
    b & (1u8 << (k as u8)) != 0
}

proof fn lemma_set_bit(b: u8, k: u8, j: u8)
    by (bit_vector)
    requires
        k < 8,
        j < 8,
    ensures
        ((b | (1u8 << k)) & (1u8 << j) != 0) == (j == k || b & (1u8 << j) != 0),
{
}

proof fn lemma_clear_bit(b: u8, k: u8, j: u8)
    by (bit_vector)
    requires
        k < 8,
        j < 8,
    ensures
        ((b & !(1u8 << k)) & (1u8 << j) != 0) == (j != k && b & (1u8 << j) != 0),
{
}

proof fn lemma_full_byte(b: u8, j: u8)
    by (bit_vector)
    requires
        j < 8,
        b == 0xFF,
    ensures
        b & (1u8 << j) != 0,
{
}

proof fn lemma_zero_byte(j: u8)
    by (bit_vector)
    requires
        j < 8,
    ensures
        0u8 & (1u8 << j) == 0,
{
}

/// Frame allocator interface.
pub trait FrameAllocator {
    /// The allocator's internal consistency.
    spec fn frame_allocator_inv(&self) -> bool;

    /// Allocates a single physical frame.
    fn allocate_frame(&mut self) -> (r: Option<PhysFrame>)
        requires
            old(self).frame_allocator_inv(),
        ensures
            final(self).frame_allocator_inv(),
    ;

    /// Releases a physical frame.
    fn deallocate_frame(&mut self, frame: PhysFrame)
        requires
            old(self).frame_allocator_inv(),
        ensures
            final(self).frame_allocator_inv(),
    ;

    /// Number of free frames.
    fn free_frame_count(&self) -> usize
        requires
            self.frame_allocator_inv(),
    ;

    /// Marks `count` consecutive frames from `start` as used.
    fn mark_frames_used(&mut self, start: PhysFrame, count: usize) -> (r: Result<()>)
        requires
            old(self).frame_allocator_inv(),
            start.0 + count * FRAME_SIZE <= usize::MAX,
        ensures
            final(self).frame_allocator_inv(),
    ;

    /// Marks `count` consecutive frames from `start` as free.
    fn mark_frames_free(&mut self, start: PhysFrame, count: usize) -> (r: Result<()>)
        requires
            old(self).frame_allocator_inv(),
            start.0 + count * FRAME_SIZE <= usize::MAX,
        ensures
            final(self).frame_allocator_inv(),
    ;
}

/// Bitmap-based physical frame allocator: one bit per frame, set when used.
pub struct BitmapFrameAllocator {
    bitmap: Vec<u8>,
    start_frame: PhysFrame,
    frame_count: usize,
    free_frames: usize,
}

impl View for BitmapFrameAllocator {
    /// Usage of each tracked frame, by index: `true` when used.
    type V = Seq<bool>;

    closed spec fn view(&self) -> Seq<bool> {
        Seq::new(
            self.frame_count as nat,
            |i: int| bit_is_set(self.bitmap@[i / 8], i % 8),
        )
    }
}

/// Index of the frame that `f` falls in, if it is tracked.
pub open spec fn frame_index_of(start: usize, count: usize, f: usize) -> Option<int> {
    if f < start || (f - start) / FRAME_SIZE as int >= count {
        None
    } else {
        Some((f - start) / FRAME_SIZE as int)
    }
}

impl BitmapFrameAllocator {
    /// Start address of the first tracked frame.
    pub closed spec fn start(&self) -> usize {
        self.start_frame.0
    }

    /// Number of tracked frames.
    pub closed spec fn count(&self) -> usize {
        self.frame_count
    }

    /// Number of free frames the allocator reports.
    pub closed spec fn free(&self) -> usize {
        self.free_frames
    }

    /// The usage map has one entry per tracked frame.
    pub proof fn lemma_view_len(&self)
        ensures
            self@.len() == self.count(),
    {
    }

    /// The frame at a tracked index maps back to that index.
    pub proof fn lemma_frame_at_index(&self, i: int)
        requires
            self.inv(),
            0 <= i < self.count(),
        ensures
            self.index_of(self.frame_at(i)) == Some(i),
            self.frame_at(i) == self.start() + i * FRAME_SIZE,
            self.start() + self.count() * FRAME_SIZE <= usize::MAX,
    {
        assert(i * FRAME_SIZE <= self.frame_count * FRAME_SIZE) by (nonlinear_arith)
            requires i < self.frame_count;
        assert((i * FRAME_SIZE) / FRAME_SIZE as int == i) by (nonlinear_arith);
    }

    /// Internal consistency: the bitmap covers the frames, the free counter
    /// counts the clear bits, and every frame address is representable.
    pub closed spec fn inv(&self) -> bool {
        &&& self.bitmap@.len() == (self.frame_count + 7) / 8
        &&& self.free_frames == count_free(self@)
        &&& self.start_frame.0 + self.frame_count * FRAME_SIZE <= usize::MAX
    }

    /// The tracked index of frame address `f`, if any.
    pub open spec fn index_of(&self, f: usize) -> Option<int> {
        frame_index_of(self.start(), self.count(), f)
    }

    /// Address of the frame with tracked index `i`.
    pub open spec fn frame_at(&self, i: int) -> usize {
        (self.start() + i * FRAME_SIZE) as usize
    }

    /// Creates an allocator for `frame_count` frames starting at `start_frame`,
    /// all free; the bitmap needs one bit per frame.
    pub fn new(bitmap_addr: usize, bitmap_size: usize, start_frame: PhysFrame, frame_count: usize) -> (r: Result<Self>)
        requires
            start_frame.0 + frame_count * FRAME_SIZE <= usize::MAX,
        ensures
            bitmap_addr == 0 ==> r == Err::<Self, MemoryError>(MemoryError::InvalidAddress),
            bitmap_addr != 0 && bitmap_size < (frame_count + 7) / 8 ==> r == Err::<
                Self,
                MemoryError,
            >(MemoryError::OutOfMemory),
            bitmap_addr != 0 && bitmap_size >= (frame_count + 7) / 8 ==> r is Ok,
            r matches Ok(a) ==> {
                &&& a.inv()
                &&& a.start() == start_frame.0
                &&& a.count() == frame_count
                &&& a@ == Seq::new(frame_count as nat, |i: int| false)
                &&& a.free() == frame_count
            },
    {
        if bitmap_addr == 0 {
            return Err(MemoryError::InvalidAddress);
        }
        let needed_bytes = (frame_count + FRAMES_PER_BYTE - 1) / FRAMES_PER_BYTE;
        if bitmap_size < needed_bytes {
            return Err(MemoryError::OutOfMemory);
        }
        let bitmap = vec![0u8; needed_bytes];
        let a = Self { bitmap, start_frame, frame_count, free_frames: frame_count };
        proof {
            let all_free = Seq::new(frame_count as nat, |i: int| false);
            assert forall|i: int| 0 <= i < frame_count implies #[trigger] a@[i] == all_free[i] by {
                lemma_zero_byte((i % 8) as u8);
            }
            assert(a@ =~= all_free);
            lemma_count_free_all(frame_count as nat);
        }
        Ok(a)
    }

    /// Bit index of a frame, if it is tracked.
    fn frame_to_bit_index(&self, frame: PhysFrame) -> (r: Option<usize>)
        requires
            self.inv(),
        ensures
            r matches Some(i) ==> self.index_of(frame.0) == Some(i as int),
            r is None ==> self.index_of(frame.0) is None,
    {
        if frame.0 < self.start_frame.0 {
            return None;
        }
        let frame_index = (frame.0 - self.start_frame.0) / FRAME_SIZE;
        if frame_index >= self.frame_count {
            None
        } else {
            Some(frame_index)
        }
    }

    /// Frame address of a bit index.
    fn bit_index_to_frame(&self, bit_index: usize) -> (r: PhysFrame)
        requires
            self.inv(),
            bit_index < self.count(),
        ensures
            r.0 == self.frame_at(bit_index as int),
            self.index_of(r.0) == Some(bit_index as int),
    {
        proof {
            assert(bit_index * FRAME_SIZE <= self.frame_count * FRAME_SIZE) by (nonlinear_arith)
                requires bit_index < self.frame_count;
            assert((bit_index * FRAME_SIZE) / FRAME_SIZE as int == bit_index) by (nonlinear_arith);
        }
        PhysFrame(self.start_frame.0 + bit_index * FRAME_SIZE)
    }

    /// Sets bit `bit_index` and decrements the free count (the bit must be clear).
    fn set_bit(&mut self, bit_index: usize)
        requires
            old(self).inv(),
            bit_index < old(self).count(),
            !old(self)@[bit_index as int],
        ensures
            final(self).inv(),
            final(self)@ == old(self)@.update(bit_index as int, true),
            final(self).start() == old(self).start(),
            final(self).count() == old(self).count(),
            final(self).free() == old(self).free() - 1,
    {
        let byte_index = bit_index / FRAMES_PER_BYTE;
        let bit_offset = bit_index % FRAMES_PER_BYTE;
        let mask = 1u8 << (bit_offset as u8);
        let ghost old_view = self@;
        let old_byte = self.bitmap[byte_index];
        self.bitmap.set(byte_index, old_byte | mask);
        proof {
            lemma_count_free_update(old_view, bit_index as int, true);
            lemma_count_free_bounded(old_view);
            assert forall|i: int| 0 <= i < self.frame_count implies #[trigger] self@[i]
                == old_view.update(bit_index as int, true)[i] by {
                if i / 8 == byte_index {
                    lemma_set_bit(old_byte, bit_offset as u8, (i % 8) as u8);
                }
            }
            assert(self@ =~= old_view.update(bit_index as int, true));
        }
        self.free_frames = self.free_frames - 1;
    }

    /// Clears bit `bit_index` and increments the free count (the bit must be set).
    fn clear_bit(&mut self, bit_index: usize)
        requires
            old(self).inv(),
            bit_index < old(self).count(),
            old(self)@[bit_index as int],
        ensures
            final(self).inv(),
            final(self)@ == old(self)@.update(bit_index as int, false),
            final(self).start() == old(self).start(),
            final(self).count() == old(self).count(),
            final(self).free() == old(self).free() + 1,
    {
        let byte_index = bit_index / FRAMES_PER_BYTE;
        let bit_offset = bit_index % FRAMES_PER_BYTE;
        let mask = 1u8 << (bit_offset as u8);
        let ghost old_view = self@;
        let old_byte = self.bitmap[byte_index];
        self.bitmap.set(byte_index, old_byte & !mask);
        proof {
            lemma_count_free_update(old_view, bit_index as int, false);
            lemma_count_free_bounded(old_view.update(bit_index as int, false));
            assert forall|i: int| 0 <= i < self.frame_count implies #[trigger] self@[i]
                == old_view.update(bit_index as int, false)[i] by {
                if i / 8 == byte_index {
                    lemma_clear_bit(old_byte, bit_offset as u8, (i % 8) as u8);
                }
            }
            assert(self@ =~= old_view.update(bit_index as int, false));
        }
        self.free_frames = self.free_frames + 1;
    }

    /// Whether bit `bit_index` is set.
    fn bit_used(&self, bit_index: usize) -> (r: bool)
        requires
            self.inv(),
            bit_index < self.count(),
        ensures
            r == self@[bit_index as int],
    {
        let byte_index = bit_index / FRAMES_PER_BYTE;
        let bit_offset = bit_index % FRAMES_PER_BYTE;
        let mask = 1u8 << (bit_offset as u8);
        (self.bitmap[byte_index] & mask) != 0
    }

    /// Marks a frame as used.
    fn set_frame_used(&mut self, frame: PhysFrame) -> (r: Result<()>)
        requires
            old(self).inv(),
        ensures
            final(self).inv(),
            final(self).start() == old(self).start(),
            final(self).count() == old(self).count(),
            old(self).index_of(frame.0) is None ==> r == Err::<(), MemoryError>(
                MemoryError::InvalidAddress,
            ) && final(self)@ == old(self)@,
            old(self).index_of(frame.0) matches Some(i) ==> {
                if old(self)@[i] {
                    r == Err::<(), MemoryError>(MemoryError::AlreadyMapped) && final(self)@ == old(
                        self,
                    )@
                } else {
                    r == Ok::<(), MemoryError>(()) && final(self)@ == old(self)@.update(i, true)
                }
            },
    {
        let bit_index = match self.frame_to_bit_index(frame) {
            Some(i) => i,
            None => {
                return Err(MemoryError::InvalidAddress);
            },
        };
        if self.bit_used(bit_index) {
            return Err(MemoryError::AlreadyMapped);
        }
        self.set_bit(bit_index);
        Ok(())
    }

    /// Marks a frame as free.
    fn set_frame_free(&mut self, frame: PhysFrame) -> (r: Result<()>)
        requires
            old(self).inv(),
        ensures
            final(self).inv(),
            final(self).start() == old(self).start(),
            final(self).count() == old(self).count(),
            old(self).index_of(frame.0) is None ==> r == Err::<(), MemoryError>(
                MemoryError::InvalidAddress,
            ) && final(self)@ == old(self)@,
            old(self).index_of(frame.0) matches Some(i) ==> {
                if !old(self)@[i] {
                    r == Err::<(), MemoryError>(MemoryError::NotMapped) && final(self)@ == old(
                        self,
                    )@
                } else {
                    r == Ok::<(), MemoryError>(()) && final(self)@ == old(self)@.update(i, false)
                }
            },
    {
        let bit_index = match self.frame_to_bit_index(frame) {
            Some(i) => i,
            None => {
                return Err(MemoryError::InvalidAddress);
            },
        };
        if !self.bit_used(bit_index) {
            return Err(MemoryError::NotMapped);
        }
        self.clear_bit(bit_index);
        Ok(())
    }

    /// Whether a frame is tracked and in use.
    pub fn is_frame_used(&self, frame: PhysFrame) -> (r: bool)
        requires
            self.inv(),
        ensures
            r == (match self.index_of(frame.0) {
                Some(i) => self@[i],
                None => false,
            }),
    {
        match self.frame_to_bit_index(frame) {
            Some(bit_index) => self.bit_used(bit_index),
            None => false,
        }
    }

    /// Lowest-indexed free frame, by a linear scan of the bitmap.
    fn find_free_frame(&self) -> (r: Option<usize>)
        requires
            self.inv(),
        ensures
            r is None ==> forall|i: int| 0 <= i < self.count() ==> #[trigger] self@[i],
            r matches Some(i) ==> i < self.count() && !self@[i as int] && forall|j: int|
                0 <= j < i ==> #[trigger] self@[j],
    {
        let bytes_to_scan = (self.frame_count + FRAMES_PER_BYTE - 1) / FRAMES_PER_BYTE;
        let mut byte_index: usize = 0;
        while byte_index < bytes_to_scan
            invariant
                self.inv(),
                bytes_to_scan == self.bitmap@.len(),
                byte_index <= bytes_to_scan,
                forall|j: int| 0 <= j < byte_index * 8 && j < self.count() ==> #[trigger] self@[j],
            decreases bytes_to_scan - byte_index,
        {
            let byte_val = self.bitmap[byte_index];
            if byte_val != 0xFF {
                let mut bit_offset: usize = 0;
                while bit_offset < FRAMES_PER_BYTE
                    invariant
                        self.inv(),
                        bytes_to_scan == self.bitmap@.len(),
                        byte_index < bytes_to_scan,
                        byte_val == self.bitmap@[byte_index as int],
                        bit_offset <= 8,
                        forall|j: int|
                            0 <= j < byte_index * 8 + bit_offset && j < self.count()
                                ==> #[trigger] self@[j],
                    decreases 8 - bit_offset,
                {
                    let bit_index = byte_index * FRAMES_PER_BYTE + bit_offset;
                    if bit_index >= self.frame_count {
                        return None;
                    }
                    let mask = 1u8 << (bit_offset as u8);
                    if (byte_val & mask) == 0 {
                        return Some(bit_index);
                    }
                    bit_offset = bit_offset + 1;
                }
            } else {
                proof {
                    assert forall|j: int|
                        byte_index * 8 <= j < byte_index * 8 + 8 && j < self.count() implies #[trigger] self@[j] by {
                        lemma_full_byte(byte_val, (j % 8) as u8);
                    }
                }
            }
            byte_index = byte_index + 1;
        }
        None
    }
}

/// `s` with the entries in `[lo, hi)` replaced by `v`.
pub open spec fn fill(s: Seq<bool>, lo: int, hi: int, v: bool) -> Seq<bool> {
    Seq::new(s.len(), |j: int| if lo <= j < hi { v } else { s[j] })
}

impl BitmapFrameAllocator {
    /// `f` is a tracked frame that is currently free.
    pub open spec fn can_mark_used(&self, f: usize) -> bool {
        self.index_of(f) matches Some(i) && !self@[i]
    }

    /// `f` is a tracked frame that is currently used.
    pub open spec fn can_mark_free(&self, f: usize) -> bool {
        self.index_of(f) matches Some(i) && self@[i]
    }

    /// Index of the first frame of a range starting at address `f`.
    pub open spec fn base_index(&self, f: usize) -> int {
        (f - self.start()) / FRAME_SIZE as int
    }
}

proof fn lemma_index_step(a: int, i: int)
    requires
        a >= 0,
        i >= 0,
    ensures
        (a + i * FRAME_SIZE) / FRAME_SIZE as int == a / FRAME_SIZE as int + i,
{
    assert((a + i * 4096) / 4096 == a / 4096 + i) by (nonlinear_arith)
        requires a >= 0, i >= 0;
}

/// `i` is the lowest index of a free entry.
pub open spec fn is_first_free(s: Seq<bool>, i: int) -> bool {
    &&& 0 <= i < s.len()
    &&& !s[i]
    &&& forall|j: int| 0 <= j < i ==> #[trigger] s[j]
}

/// The lowest index of a free entry (meaningful when one exists).
pub open spec fn first_free(s: Seq<bool>) -> int {
    choose|i: int| is_first_free(s, i)
}

/// Usage after one allocation: the lowest free entry becomes used, if any.
pub open spec fn allocate_first_free(s: Seq<bool>) -> Seq<bool> {
    if exists|i: int| 0 <= i < s.len() && !s[i] {
        s.update(first_free(s), true)
    } else {
        s
    }
}

/// Usage after `n` successive allocations.
pub open spec fn allocate_n(s: Seq<bool>, n: nat) -> Seq<bool>
    decreases n,
{
    if n == 0 {
        s
    } else {
        allocate_n(allocate_first_free(s), (n - 1) as nat)
    }
}

/// The lowest free entry is unique.
pub proof fn lemma_first_free_unique(s: Seq<bool>, i: int)
    requires
        is_first_free(s, i),
    ensures
        first_free(s) == i,
        allocate_first_free(s) == s.update(i, true),
{
    let k = first_free(s);
    assert(is_first_free(s, k));
    if k < i {
        assert(s[k]);
    }
    if i < k {
        assert(s[i]);
    }
}

/// With no free entry left, further allocations change nothing.
pub proof fn lemma_allocate_n_full(s: Seq<bool>, n: nat)
    requires
        forall|i: int| 0 <= i < s.len() ==> #[trigger] s[i],
    ensures
        allocate_n(s, n) == s,
    decreases n,
{
    if n > 0 {
        lemma_allocate_n_full(s, (n - 1) as nat);
    }
}

/// One more allocation after `n` is the same as `n + 1` allocations.
pub proof fn lemma_allocate_n_step(s: Seq<bool>, n: nat)
    ensures
        allocate_n(s, n + 1) == allocate_first_free(allocate_n(s, n)),
    decreases n,
{
    if n > 0 {
        let t = allocate_first_free(s);
        lemma_allocate_n_step(t, (n - 1) as nat);
        assert(allocate_n(s, n + 1) == allocate_n(t, n));
        assert(allocate_n(s, n) == allocate_n(t, (n - 1) as nat));
        assert((n - 1) as nat + 1 == n);
    } else {
        assert(allocate_n(s, 1) == allocate_n(allocate_first_free(s), 0));
    }
}

/// Each allocation from a map with a free entry consumes exactly one.
pub proof fn lemma_allocate_n_count(s: Seq<bool>, n: nat)
    requires
        n <= count_free(s),
    ensures
        count_free(allocate_n(s, n)) == count_free(s) - n,
        allocate_n(s, n).len() == s.len(),
    decreases n,
{
    if n > 0 {
        lemma_count_free_positive(s);
        let i = choose|i: int| 0 <= i < s.len() && !s[i];
        lemma_first_free_exists(s);
        let k = first_free(s);
        lemma_count_free_update(s, k, true);
        lemma_allocate_n_count(allocate_first_free(s), (n - 1) as nat);
    }
}

/// When a free entry exists, the lowest one is well defined.
pub proof fn lemma_first_free_exists(s: Seq<bool>)
    requires
        exists|i: int| 0 <= i < s.len() && !s[i],
    ensures
        is_first_free(s, first_free(s)),
    decreases s.len(),
{
    let w = choose|i: int| 0 <= i < s.len() && !s[i];
    lemma_min_free(s, w);
}

proof fn lemma_min_free(s: Seq<bool>, w: int)
    requires
        0 <= w < s.len(),
        !s[w],
    ensures
        exists|i: int| is_first_free(s, i),
    decreases w,
{
    if forall|j: int| 0 <= j < w ==> #[trigger] s[j] {
        assert(is_first_free(s, w));
    } else {
        let j = choose|j: int| 0 <= j < w && !s[j];
        lemma_min_free(s, j);
    }
}

impl FrameAllocator for BitmapFrameAllocator {
    open spec fn frame_allocator_inv(&self) -> bool {
        self.inv()
    }

    /// Allocates the lowest-indexed free frame.
    fn allocate_frame(&mut self) -> (r: Option<PhysFrame>)
        ensures
            final(self).start() == old(self).start(),
            final(self).count() == old(self).count(),
            r is None <==> forall|i: int| 0 <= i < old(self).count() ==> #[trigger] old(self)@[i],
            r is None ==> final(self)@ == old(self)@,
            final(self)@ == allocate_first_free(old(self)@),
            r matches Some(f) ==> f.0 == old(self).frame_at(first_free(old(self)@)),
            r matches Some(f) ==> exists|i: int|
                0 <= i < old(self).count() && !old(self)@[i] && (forall|j: int|
                    0 <= j < i ==> #[trigger] old(self)@[j]) && f.0 == old(self).frame_at(i)
                    && final(self)@ == old(self)@.update(i, true),
    {
        proof {
            lemma_count_free_positive(self@);
        }
        if self.free_frames == 0 {
            return None;
        }
        let ghost before = self@;
        let bit_index = match self.find_free_frame() {
            Some(i) => i,
            None => {
                return None;
            },
        };
        let frame = self.bit_index_to_frame(bit_index);
        proof {
            lemma_first_free_unique(self@, bit_index as int);
        }
        match self.set_frame_used(frame) {
            Ok(()) => {},
            Err(_) => {
                return None;
            },
        }
        Some(frame)
    }

    /// Frees a frame; frames that are untracked or already free are ignored.
    fn deallocate_frame(&mut self, frame: PhysFrame)
        ensures
            final(self).start() == old(self).start(),
            final(self).count() == old(self).count(),
            old(self).can_mark_free(frame.0) ==> final(self)@ == old(self)@.update(
                old(self).index_of(frame.0)->0,
                false,
            ),
            !old(self).can_mark_free(frame.0) ==> final(self)@ == old(self)@,
    {
        let _ = self.set_frame_free(frame);
    }

    /// Number of free frames.
    fn free_frame_count(&self) -> (r: usize)
        ensures
            r == count_free(self@),
            r == self.free(),
    {
        self.free_frames
    }

    /// Marks `count` consecutive frames from `start` as used, stopping at the
    /// first frame that is untracked or already used.
    fn mark_frames_used(&mut self, start: PhysFrame, count: usize) -> (r: Result<()>)
        ensures
            final(self).start() == old(self).start(),
            final(self).count() == old(self).count(),
            r is Ok <==> forall|i: int|
                0 <= i < count ==> #[trigger] old(self).can_mark_used(
                    (start.0 + i * FRAME_SIZE) as usize,
                ),
            r is Ok ==> final(self)@ == fill(
                old(self)@,
                old(self).base_index(start.0),
                old(self).base_index(start.0) + count,
                true,
            ),
            r matches Err(e) ==> exists|k: int|
                0 <= k < count && (forall|i: int|
                    0 <= i < k ==> #[trigger] old(self).can_mark_used(
                        (start.0 + i * FRAME_SIZE) as usize,
                    )) && !#[trigger] old(self).can_mark_used((start.0 + k * FRAME_SIZE) as usize)
                    && final(self)@ == fill(
                    old(self)@,
                    old(self).base_index(start.0),
                    old(self).base_index(start.0) + k,
                    true,
                ) && e == (if old(self).index_of((start.0 + k * FRAME_SIZE) as usize) is None {
                    MemoryError::InvalidAddress
                } else {
                    MemoryError::AlreadyMapped
                }),
    {
        let ghost old_self = *self;
        let ghost base = old_self.base_index(start.0);
        let mut i: usize = 0;
        assert(self@ =~= fill(old_self@, base, base, true));
        while i < count
            invariant
                old_self == *old(self),
                self.inv(),
                self.start() == old_self.start(),
                self.count() == old_self.count(),
                i <= count,
                start.0 + count * FRAME_SIZE <= usize::MAX,
                base == old_self.base_index(start.0),
                forall|j: int|
                    0 <= j < i ==> #[trigger] old_self.can_mark_used(
                        (start.0 + j * FRAME_SIZE) as usize,
                    ),
                self@ == fill(old_self@, base, base + i, true),
            decreases count - i,
        {
            proof {
                assert(i * FRAME_SIZE <= count * FRAME_SIZE) by (nonlinear_arith)
                    requires i <= count;
            }
            let frame = PhysFrame(start.0 + i * FRAME_SIZE);
            proof {
                if start.0 >= old_self.start() {
                    lemma_index_step(start.0 - old_self.start(), i as int);
                } else if i > 0 {
                    assert(old_self.can_mark_used((start.0 + 0 * FRAME_SIZE) as usize));
                }
            }
            let ghost cur = self@;
            match self.set_frame_used(frame) {
                Ok(()) => {},
                Err(e) => {
                    assert(!old_self.can_mark_used((start.0 + i * FRAME_SIZE) as usize));
                    return Err(e);
                },
            }
            proof {
                assert(self@ =~= fill(old_self@, base, base + i + 1, true));
            }
            i = i + 1;
        }
        Ok(())
    }

    /// Marks `count` consecutive frames from `start` as free, stopping at the
    /// first frame that is untracked or already free.
    fn mark_frames_free(&mut self, start: PhysFrame, count: usize) -> (r: Result<()>)
        ensures
            final(self).start() == old(self).start(),
            final(self).count() == old(self).count(),
            r is Ok <==> forall|i: int|
                0 <= i < count ==> #[trigger] old(self).can_mark_free(
                    (start.0 + i * FRAME_SIZE) as usize,
                ),
            r is Ok ==> final(self)@ == fill(
                old(self)@,
                old(self).base_index(start.0),
                old(self).base_index(start.0) + count,
                false,
            ),
            r matches Err(e) ==> exists|k: int|
                0 <= k < count && (forall|i: int|
                    0 <= i < k ==> #[trigger] old(self).can_mark_free(
                        (start.0 + i * FRAME_SIZE) as usize,
                    )) && !#[trigger] old(self).can_mark_free((start.0 + k * FRAME_SIZE) as usize)
                    && final(self)@ == fill(
                    old(self)@,
                    old(self).base_index(start.0),
                    old(self).base_index(start.0) + k,
                    false,
                ) && e == (if old(self).index_of((start.0 + k * FRAME_SIZE) as usize) is None {
                    MemoryError::InvalidAddress
                } else {
                    MemoryError::NotMapped
                }),
    {
        let ghost old_self = *self;
        let ghost base = old_self.base_index(start.0);
        let mut i: usize = 0;
        assert(self@ =~= fill(old_self@, base, base, false));
        while i < count
            invariant
                old_self == *old(self),
                self.inv(),
                self.start() == old_self.start(),
                self.count() == old_self.count(),
                i <= count,
                start.0 + count * FRAME_SIZE <= usize::MAX,
                base == old_self.base_index(start.0),
                forall|j: int|
                    0 <= j < i ==> #[trigger] old_self.can_mark_free(
                        (start.0 + j * FRAME_SIZE) as usize,
                    ),
                self@ == fill(old_self@, base, base + i, false),
            decreases count - i,
        {
            proof {
                assert(i * FRAME_SIZE <= count * FRAME_SIZE) by (nonlinear_arith)
                    requires i <= count;
            }
            let frame = PhysFrame(start.0 + i * FRAME_SIZE);
            proof {
                if start.0 >= old_self.start() {
                    lemma_index_step(start.0 - old_self.start(), i as int);
                } else if i > 0 {
                    assert(old_self.can_mark_free((start.0 + 0 * FRAME_SIZE) as usize));
                }
            }
            match self.set_frame_free(frame) {
                Ok(()) => {},
                Err(e) => {
                    assert(!old_self.can_mark_free((start.0 + i * FRAME_SIZE) as usize));
                    return Err(e);
                },
            }
            proof {
                assert(self@ =~= fill(old_self@, base, base + i + 1, false));
            }
            i = i + 1;
        }
        Ok(())
    }
}

/// All-free usage maps count every entry.
pub proof fn lemma_count_free_all(n: nat)
    ensures
        count_free(Seq::new(n, |i: int| false)) == n,
    decreases n,
{
    if n > 0 {
        assert(Seq::new(n, |i: int| false).drop_last() =~= Seq::new((n - 1) as nat, |i: int| false));
        lemma_count_free_all((n - 1) as nat);
    }
}

/// Allocating a frame and freeing it again leaves the usage map as it was:
/// the frame handed out was the lowest free one, and only it changed.
pub proof fn law_allocate_then_free(s: Seq<bool>)
    requires
        exists|i: int| 0 <= i < s.len() && !s[i],
    ensures
        0 <= first_free(s) < s.len(),
        !s[first_free(s)],
        allocate_first_free(s)[first_free(s)],
        allocate_first_free(s).update(first_free(s), false) == s,
{
    lemma_first_free_exists(s);
    assert(allocate_first_free(s).update(first_free(s), false) =~= s);
}

/// Each allocation takes one free frame while there is one, and none after.
pub proof fn law_allocation_counts_down(s: Seq<bool>)
    ensures
        count_free(s) > 0 ==> count_free(allocate_first_free(s)) == count_free(s) - 1,
        count_free(s) == 0 ==> allocate_first_free(s) == s,
{
    lemma_count_free_positive(s);
    if count_free(s) > 0 {
        lemma_first_free_exists(s);
        lemma_count_free_update(s, first_free(s), true);
    }
}

} // verus!
