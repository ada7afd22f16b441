//! Memory management: addresses, frames, layout, frame allocation and heap.
pub mod frame_allocator;
pub mod heap;
pub mod layout;

use vstd::prelude::*;
use crate::nexis_kernel::memory::frame_allocator::{
    BitmapFrameAllocator, FrameAllocator, allocate_first_free, count_free, first_free,
};

verus! {

/// Page/frame size, 4 KiB.
pub const FRAME_SIZE: usize = 4096;

/// Page size (same as the frame size).
pub const PAGE_SIZE: usize = FRAME_SIZE;

/// Physical frame, named by its physical start address.
#[derive(Copy, Clone, Debug, PartialEq, Eq, PartialOrd, Ord, Structural)]
pub struct PhysFrame(pub usize);

impl PhysFrame {
    /// Start address of the frame.
    pub fn start_address(&self) -> (r: PhysAddr)
        ensures
            r.0 == self.0,
    {
        PhysAddr(self.0)
    }

    /// The frame containing a physical address.
    pub fn containing_address(addr: PhysAddr) -> (r: Self)
        ensures
            r.0 == addr.0 - addr.0 % FRAME_SIZE,
    {
        proof {
            layout::utils::lemma_mask_is_round_down(addr.0);
        }
        PhysFrame(addr.0 & !(FRAME_SIZE - 1))
    }
}

/// Physical memory address.
#[derive(Copy, Clone, Debug, PartialEq, Eq, PartialOrd, Ord, Structural)]
pub struct PhysAddr(pub usize);

impl PhysAddr {
    /// Wraps a raw physical address.
    pub fn new(addr: usize) -> (r: Self)
        ensures
            r.0 == addr,
    {
        Self(addr)
    }

    /// The address as a `u64`.
    pub fn as_u64(self) -> (r: u64)
        requires
            self.0 <= u64::MAX,
        ensures
            r == self.0,
    {
        self.0 as u64
    }

    /// The address as a `usize`.
    pub fn as_usize(self) -> (r: usize)
        ensures
            r == self.0,
    {
        self.0
    }
}

/// Virtual memory address.
#[derive(Copy, Clone, Debug, PartialEq, Eq, PartialOrd, Ord, Structural)]
pub struct VirtAddr(pub usize);

impl VirtAddr {
    /// Wraps a raw virtual address.
    pub fn new(addr: usize) -> (r: Self)
        ensures
            r.0 == addr,
    {
        Self(addr)
    }

    /// The address as a `u64`.
    pub fn as_u64(self) -> (r: u64)
        requires
            self.0 <= u64::MAX,
        ensures
            r == self.0,
    {
        self.0 as u64
    }

    /// The address as a `usize`.
    pub fn as_usize(self) -> (r: usize)
        ensures
            r == self.0,
    {
        self.0
    }
}

/// Error types for memory operations.
#[derive(Debug, Clone, Copy, PartialEq, Eq, Structural)]
pub enum MemoryError {
    OutOfMemory,
    InvalidAddress,
    AlreadyMapped,
    NotMapped,
    PermissionDenied,
}

/// Result of a memory operation.
pub type Result<T> = core::result::Result<T, MemoryError>;

/// The system frame allocator is set up and consistent (or absent).
pub open spec fn frames_ok(a: Option<BitmapFrameAllocator>) -> bool {
    a matches Some(x) ==> x.inv()
}

/// Sets up the system frame allocator; on error the previous one stays.
pub fn init_frame_allocator(
    allocator: &mut Option<BitmapFrameAllocator>,
    bitmap_addr: usize,
    bitmap_size: usize,
    start_frame: PhysFrame,
    frame_count: usize,
) -> (r: Result<()>)
    requires
        start_frame.0 + frame_count * FRAME_SIZE <= usize::MAX,
    ensures
        bitmap_addr == 0 ==> r == Err::<(), MemoryError>(MemoryError::InvalidAddress),
        bitmap_addr != 0 && bitmap_size < (frame_count + 7) / 8 ==> r == Err::<(), MemoryError>(
            MemoryError::OutOfMemory,
        ),
        bitmap_addr != 0 && bitmap_size >= (frame_count + 7) / 8 ==> r is Ok,
        r is Err ==> *final(allocator) == *old(allocator),
        r is Ok ==> (*final(allocator) matches Some(a) && a.inv() && a.start() == start_frame.0
            && a.count() == frame_count && a@ == Seq::new(frame_count as nat, |i: int| false)),
{
    let a = BitmapFrameAllocator::new(bitmap_addr, bitmap_size, start_frame, frame_count)?;
    *allocator = Some(a);
    Ok(())
}

/// Allocates the lowest free frame of the system allocator.
pub fn allocate_frame(allocator: &mut Option<BitmapFrameAllocator>) -> (r: Option<PhysFrame>)
    requires
        frames_ok(*old(allocator)),
    ensures
        frames_ok(*final(allocator)),
        *old(allocator) is None ==> r is None && *final(allocator) is None,
        *old(allocator) matches Some(a) ==> (*final(allocator) matches Some(b) && b.start()
            == a.start() && b.count() == a.count() && b@ == allocate_first_free(a@) && (r is None
            <==> count_free(a@) == 0) && (r matches Some(f) ==> f.0 == a.frame_at(
            first_free(a@),
        ))),
{
    match allocator {
        Some(a) => {
            let ghost before = a@;
            proof {
                frame_allocator::lemma_count_free_positive(before);
                a.lemma_view_len();
            }
            let r = a.allocate_frame();
            proof {
                if r is None {
                    assert forall|i: int| 0 <= i < before.len() implies #[trigger] before[i] by {}
                }
            }
            r
        },
        None => None,
    }
}

/// Returns a frame to the system allocator; ignored when there is none.
pub fn deallocate_frame(allocator: &mut Option<BitmapFrameAllocator>, frame: PhysFrame)
    requires
        frames_ok(*old(allocator)),
    ensures
        frames_ok(*final(allocator)),
        *old(allocator) is None ==> *final(allocator) is None,
        *old(allocator) matches Some(a) ==> (*final(allocator) matches Some(b) && b.start()
            == a.start() && b.count() == a.count() && (a.can_mark_free(frame.0) ==> b@ == a@.update(
            a.index_of(frame.0)->0,
            false,
        )) && (!a.can_mark_free(frame.0) ==> b@ == a@)),
{
    match allocator {
        Some(a) => a.deallocate_frame(frame),
        None => {},
    }
}

/// Number of free frames in the system allocator (zero when there is none).
pub fn free_frame_count(allocator: &Option<BitmapFrameAllocator>) -> (r: usize)
    requires
        frames_ok(*allocator),
    ensures
        r == (match *allocator {
            Some(a) => count_free(a@),
            None => 0,
        }),
{
    match allocator {
        Some(a) => a.free_frame_count(),
        None => 0,
    }
}

} // verus!
