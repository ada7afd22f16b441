//! Memory layout: regions of physical memory and address utilities.
pub mod aslr;
pub mod physical;
pub mod utils;
pub mod virtual_memory;

use vstd::prelude::*;
use crate::nexis_kernel::memory::{PhysAddr, VirtAddr, FRAME_SIZE};

verus! {

/// Kind of a memory region.
#[derive(Debug, Clone, Copy, PartialEq, Eq, Structural)]
pub enum MemoryRegionType {
    /// Available for use.
    Available,
    /// Reserved by the system.
    Reserved,
    /// ACPI tables.
    AcpiTables,
    /// Bad memory.
    BadMemory,
    /// Kernel image.
    Kernel,
    /// Frame buffer.
    Framebuffer,
    /// Allocated by an allocator.
    Allocated,
}

/// A contiguous region of physical memory.
#[derive(Debug, Clone, Copy)]
pub struct MemoryRegion {
    pub start: PhysAddr,
    pub size: usize,
    pub region_type: MemoryRegionType,
}

/// Whether `addr` lies in `[start, start + size)`.
pub open spec fn region_contains(r: MemoryRegion, addr: usize) -> bool {
    r.start.0 <= addr && addr < r.start.0 + r.size
}

/// Whether the end address of the region is representable.
pub open spec fn region_end_fits(r: MemoryRegion) -> bool {
    r.start.0 + r.size <= usize::MAX
}

impl MemoryRegion {
    /// Builds a region.
    pub fn new(start: PhysAddr, size: usize, region_type: MemoryRegionType) -> (r: Self)
        ensures
            r.start == start,
            r.size == size,
            r.region_type == region_type,
    {
        Self { start, size, region_type }
    }

    /// One past the last address of the region.
    pub fn end(&self) -> (r: PhysAddr)
        requires
            region_end_fits(*self),
        ensures
            r.0 == self.start.0 + self.size,
    {
        PhysAddr(self.start.0 + self.size)
    }

    /// Whether the region contains `addr`.
    pub fn contains(&self, addr: PhysAddr) -> (r: bool)
        requires
            addr.0 >= self.start.0 ==> region_end_fits(*self),
        ensures
            r == region_contains(*self, addr.0),
    {
        addr.0 >= self.start.0 && addr.0 < self.end().0
    }

    /// Whether two regions share at least one address.
    pub fn overlaps(&self, other: &MemoryRegion) -> (r: bool)
        requires
            region_end_fits(*other),
            self.start.0 < other.start.0 + other.size ==> region_end_fits(*self),
        ensures
            r == (self.start.0 < other.start.0 + other.size && other.start.0 < self.start.0
                + self.size),
    {
        self.start.0 < other.end().0 && other.start.0 < self.end().0
    }

    /// Range of frame numbers covering the region: first frame, one past the last.
    pub fn frame_range(&self) -> (r: (usize, usize))
        requires
            self.start.0 + self.size + FRAME_SIZE <= usize::MAX,
        ensures
            r.0 == self.start.0 / FRAME_SIZE,
            r.1 == (self.start.0 + self.size + FRAME_SIZE - 1) / FRAME_SIZE as int,
    {
        let start_frame = self.start.0 / FRAME_SIZE;
        let end_frame = (self.end().0 + FRAME_SIZE - 1) / FRAME_SIZE;
        (start_frame, end_frame)
    }
}

/// Maximum number of regions a layout can hold.
pub const MAX_REGIONS: usize = 64;

/// Regions ordered by their start address.
pub open spec fn sorted_by_start(s: Seq<MemoryRegion>) -> bool {
    forall|i: int, j: int| 0 <= i <= j < s.len() ==> s[i].start.0 <= s[j].start.0
}

/// `p` is where a region starting at `key` goes: after every region starting
/// at or before `key`, before every region starting after it.
pub open spec fn is_insert_pos(s: Seq<MemoryRegion>, p: int, key: usize) -> bool {
    &&& 0 <= p <= s.len()
    &&& forall|i: int| 0 <= i < p ==> s[i].start.0 <= key
    &&& forall|i: int| p <= i < s.len() ==> s[i].start.0 > key
}

/// Position at which a region starting at `key` is inserted.
pub open spec fn insert_pos(s: Seq<MemoryRegion>, key: usize) -> int {
    choose|p: int| is_insert_pos(s, p, key)
}

/// `s` with `r` inserted after all regions that start at or before it.
pub open spec fn sorted_insert(s: Seq<MemoryRegion>, r: MemoryRegion) -> Seq<MemoryRegion> {
    s.insert(insert_pos(s, r.start.0), r)
}

/// Sum of the sizes of the available regions.
pub open spec fn available_total(s: Seq<MemoryRegion>) -> int
    decreases s.len(),
{
    if s.len() == 0 {
        0
    } else {
        available_total(s.drop_last()) + (if s.last().region_type == MemoryRegionType::Available {
            s.last().size as int
        } else {
            0
        })
    }
}

/// The total of a prefix never exceeds the total.
proof fn lemma_available_total_prefix(s: Seq<MemoryRegion>, n: int)
    requires
        0 <= n <= s.len(),
    ensures
        0 <= available_total(s.subrange(0, n)) <= available_total(s),
    decreases s.len(),
{
    if n == s.len() {
        assert(s.subrange(0, n) =~= s);
    } else {
        assert(s.drop_last().subrange(0, n) =~= s.subrange(0, n));
        lemma_available_total_prefix(s.drop_last(), n);
    }
    if n == s.len() && s.len() > 0 {
        lemma_available_total_prefix(s.drop_last(), n - 1);
    }
}

/// Physical memory layout: up to `MAX_REGIONS` regions sorted by start address.
pub struct MemoryLayout {
    regions: Vec<MemoryRegion>,
}

impl View for MemoryLayout {
    type V = Seq<MemoryRegion>;

    closed spec fn view(&self) -> Seq<MemoryRegion> {
        self.regions@
    }
}

impl MemoryLayout {
    /// Well-formedness: bounded size, sorted by start address.
    pub open spec fn wf(&self) -> bool {
        &&& self@.len() <= MAX_REGIONS
        &&& sorted_by_start(self@)
    }

    /// An empty layout.
    pub fn new() -> (r: Self)
        ensures
            r.wf(),
            r@ == Seq::<MemoryRegion>::empty(),
    {
        Self { regions: Vec::new() }
    }

    /// Adds a region, keeping the regions sorted by start address; a region
    /// with the same start as existing ones goes after them.
    pub fn add_region(&mut self, region: MemoryRegion) -> (r: core::result::Result<(), &'static str>)
        requires
            old(self).wf(),
        ensures
            final(self).wf(),
            r is Ok <==> old(self)@.len() < MAX_REGIONS,
            r is Ok ==> final(self)@ == sorted_insert(old(self)@, region),
            r is Ok ==> final(self)@.len() == old(self)@.len() + 1,
            r is Err ==> final(self)@ == old(self)@,
            r matches Err(m) ==> m@ == "Too many memory regions"@,
    {
        if self.regions.len() >= MAX_REGIONS {
            return Err("Too many memory regions");
        }
        let key = region.start.0;
        let mut p = self.regions.len();
        while p > 0 && self.regions[p - 1].start.0 > key
            invariant
                p <= self.regions@.len(),
                self@ == old(self)@,
                forall|i: int| p <= i < self@.len() ==> self@[i].start.0 > key,
            decreases p,
        {
            p = p - 1;
        }
        let ghost s = self@;
        proof {
            assert(is_insert_pos(s, p as int, key));
            let q = insert_pos(s, key);
            assert(is_insert_pos(s, q, key));
            if q < p {
                assert(s[q].start.0 <= key);
            }
            if p < q {
                assert(s[p as int].start.0 <= key);
            }
            assert(q == p);
        }
        self.regions.insert(p, region);
        proof {
            let t = self@;
            assert(t == s.insert(p as int, region));
            assert forall|i: int, j: int| 0 <= i <= j < t.len() implies t[i].start.0
                <= t[j].start.0 by {
                if i < p && j < p {
                } else if i < p && j == p {
                } else if i < p && j > p {
                    assert(t[j] == s[j - 1]);
                } else if i == p && j > p {
                    assert(t[j] == s[j - 1]);
                } else if i > p {
                    assert(t[i] == s[i - 1]);
                    assert(t[j] == s[j - 1]);
                }
            }
        }
        Ok(())
    }

    /// All regions, in order.
    pub fn regions(&self) -> (r: &[MemoryRegion])
        ensures
            r@ == self@,
    {
        self.regions.as_slice()
    }

    /// The first region containing `addr`.
    pub fn find_region(&self, addr: PhysAddr) -> (r: Option<&MemoryRegion>)
        requires
            forall|i: int|
                0 <= i < self@.len() && (forall|j: int| 0 <= j < i ==> !region_contains(
                    #[trigger] self@[j],
                    addr.0,
                )) && self@[i].start.0 <= addr.0 ==> region_end_fits(self@[i]),
        ensures
            r is None ==> forall|i: int| 0 <= i < self@.len() ==> !region_contains(
                #[trigger] self@[i],
                addr.0,
            ),
            r matches Some(x) ==> exists|i: int|
                0 <= i < self@.len() && *x == self@[i] && region_contains(self@[i], addr.0) && (
                forall|j: int| 0 <= j < i ==> !region_contains(#[trigger] self@[j], addr.0)),
    {
        let mut i: usize = 0;
        while i < self.regions.len()
            invariant
                i <= self@.len(),
                forall|j: int| 0 <= j < i ==> !region_contains(#[trigger] self@[j], addr.0),
                forall|k: int|
                    0 <= k < self@.len() && (forall|j: int| 0 <= j < k ==> !region_contains(
                        #[trigger] self@[j],
                        addr.0,
                    )) && self@[k].start.0 <= addr.0 ==> region_end_fits(self@[k]),
            decreases self@.len() - i,
        {
            if self.regions[i].contains(addr) {
                return Some(&self.regions[i]);
            }
            i = i + 1;
        }
        None
    }

    /// The largest available region; among equally large ones, the last.
    pub fn largest_available_region(&self) -> (r: Option<&MemoryRegion>)
        ensures
            r is None ==> forall|i: int|
                0 <= i < self@.len() ==> (#[trigger] self@[i]).region_type
                    != MemoryRegionType::Available,
            r matches Some(x) ==> exists|i: int|
                0 <= i < self@.len() && *x == self@[i] && x.region_type
                    == MemoryRegionType::Available && (forall|j: int|
                    0 <= j < self@.len() && (#[trigger] self@[j]).region_type
                        == MemoryRegionType::Available ==> self@[j].size <= x.size) && (forall|
                    j: int,
                |
                    i < j < self@.len() && (#[trigger] self@[j]).region_type
                        == MemoryRegionType::Available ==> self@[j].size < x.size),
    {
        let mut best: Option<usize> = None;
        let mut i: usize = 0;
        while i < self.regions.len()
            invariant
                i <= self@.len(),
                best is None ==> forall|j: int|
                    0 <= j < i ==> (#[trigger] self@[j]).region_type
                        != MemoryRegionType::Available,
                best matches Some(b) ==> b < i && self@[b as int].region_type
                    == MemoryRegionType::Available && (forall|j: int|
                    0 <= j < i && (#[trigger] self@[j]).region_type == MemoryRegionType::Available
                        ==> self@[j].size <= self@[b as int].size) && (forall|j: int|
                    b < j < i && (#[trigger] self@[j]).region_type == MemoryRegionType::Available
                        ==> self@[j].size < self@[b as int].size),
            decreases self@.len() - i,
        {
            if self.regions[i].region_type == MemoryRegionType::Available {
                match best {
                    None => {
                        best = Some(i);
                    },
                    Some(b) => {
                        if self.regions[i].size >= self.regions[b].size {
                            best = Some(i);
                        }
                    },
                }
            }
            i = i + 1;
        }
        match best {
            None => None,
            Some(b) => Some(&self.regions[b]),
        }
    }

    /// Total size of the available regions.
    pub fn total_available_memory(&self) -> (r: usize)
        requires
            available_total(self@) <= usize::MAX,
        ensures
            r == available_total(self@),
    {
        let mut total: usize = 0;
        let mut i: usize = 0;
        while i < self.regions.len()
            invariant
                i <= self@.len(),
                total == available_total(self@.subrange(0, i as int)),
                available_total(self@) <= usize::MAX,
            decreases self@.len() - i,
        {
            proof {
                assert(self@.subrange(0, i + 1).drop_last() =~= self@.subrange(0, i as int));
                lemma_available_total_prefix(self@, i + 1);
            }
            if self.regions[i].region_type == MemoryRegionType::Available {
                total = total + self.regions[i].size;
            }
            i = i + 1;
        }
        assert(self@.subrange(0, self@.len() as int) =~= self@);
        total
    }

    /// Records an allocated region.
    pub fn mark_allocated(&mut self, start: PhysAddr, size: usize) -> (r: core::result::Result<
        (),
        &'static str,
    >)
        requires
            old(self).wf(),
        ensures
            final(self).wf(),
            r is Ok <==> old(self)@.len() < MAX_REGIONS,
            r is Ok ==> final(self)@ == sorted_insert(
                old(self)@,
                MemoryRegion { start, size, region_type: MemoryRegionType::Allocated },
            ),
            r is Err ==> final(self)@ == old(self)@,
    {
        self.add_region(MemoryRegion::new(start, size, MemoryRegionType::Allocated))
    }

    /// Adds the standard PC regions: low memory, the VGA buffer and the BIOS
    /// area, stopping at the first one that does not fit.
    pub fn init_standard_layout(&mut self) -> (r: core::result::Result<(), &'static str>)
        requires
            old(self).wf(),
        ensures
            final(self).wf(),
            r is Ok <==> old(self)@.len() + 3 <= MAX_REGIONS,
            ({
                let s1 = sorted_insert(old(self)@, standard_low_memory());
                let s2 = sorted_insert(s1, standard_vga_buffer());
                let s3 = sorted_insert(s2, standard_bios_area());
                &&& old(self)@.len() >= MAX_REGIONS ==> final(self)@ == old(self)@
                &&& old(self)@.len() + 1 == MAX_REGIONS ==> final(self)@ == s1
                &&& old(self)@.len() + 2 == MAX_REGIONS ==> final(self)@ == s2
                &&& old(self)@.len() + 3 <= MAX_REGIONS ==> final(self)@ == s3
            }),
    {
        self.add_region(
            MemoryRegion::new(
                PhysAddr(physical::CONVENTIONAL_START),
                640 * 1024 - physical::CONVENTIONAL_START,
                MemoryRegionType::Available,
            ),
        )?;
        self.add_region(
            MemoryRegion::new(
                PhysAddr(physical::VGA_BUFFER),
                physical::VGA_BUFFER_SIZE,
                MemoryRegionType::Framebuffer,
            ),
        )?;
        self.add_region(
            MemoryRegion::new(
                PhysAddr(physical::BIOS_START),
                physical::BIOS_END - physical::BIOS_START,
                MemoryRegionType::Reserved,
            ),
        )?;
        Ok(())
    }
}

/// Low memory (0x500 up to 640 KiB), available.
pub open spec fn standard_low_memory() -> MemoryRegion {
    MemoryRegion {
        start: PhysAddr(physical::CONVENTIONAL_START),
        size: (640 * 1024 - physical::CONVENTIONAL_START) as usize,
        region_type: MemoryRegionType::Available,
    }
}

/// The VGA frame buffer.
pub open spec fn standard_vga_buffer() -> MemoryRegion {
    MemoryRegion {
        start: PhysAddr(physical::VGA_BUFFER),
        size: physical::VGA_BUFFER_SIZE,
        region_type: MemoryRegionType::Framebuffer,
    }
}

/// The BIOS area, reserved.
pub open spec fn standard_bios_area() -> MemoryRegion {
    MemoryRegion {
        start: PhysAddr(physical::BIOS_START),
        size: (physical::BIOS_END - physical::BIOS_START) as usize,
        region_type: MemoryRegionType::Reserved,
    }
}

/// Kernel section boundaries, as the linker placed them.
pub struct KernelLayout {
    pub start: VirtAddr,
    pub end: VirtAddr,
    pub text_start: VirtAddr,
    pub text_end: VirtAddr,
    pub rodata_start: VirtAddr,
    pub rodata_end: VirtAddr,
    pub data_start: VirtAddr,
    pub data_end: VirtAddr,
    pub bss_start: VirtAddr,
    pub bss_end: VirtAddr,
}

impl KernelLayout {
    /// Kernel size in bytes.
    pub fn size(&self) -> (r: usize)
        requires
            self.start.0 <= self.end.0,
        ensures
            r == self.end.0 - self.start.0,
    {
        self.end.0 - self.start.0
    }

    /// Kernel physical start, assuming an identity mapping.
    pub fn physical_start(&self) -> (r: PhysAddr)
        ensures
            r.0 == self.start.0,
    {
        PhysAddr(self.start.0)
    }

    /// Whether a virtual address lies within the kernel image.
    pub fn contains_virtual(&self, addr: VirtAddr) -> (r: bool)
        ensures
            r == (self.start.0 <= addr.0 && addr.0 < self.end.0),
    {
        addr.0 >= self.start.0 && addr.0 < self.end.0
    }
}

} // verus!
