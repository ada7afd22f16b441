//! Virtual memory layout constants (higher-half kernel, user space below).
use vstd::prelude::*;

verus! {

/// Kernel code/data start (higher half).
pub const KERNEL_START: u64 = 0xFFFFFFFF80000000;

/// Kernel heap region start.
pub const HEAP_START: u64 = 0xFFFF800000000000;

/// Kernel heap region end.
pub const HEAP_END: u64 = 0xFFFF900000000000;

/// Kernel stack region start.
pub const KERNEL_STACK_START: u64 = 0xFFFF900000000000;

/// Kernel stack region end.
pub const KERNEL_STACK_END: u64 = 0xFFFFA00000000000;

/// Physical memory direct mapping start.
pub const PHYS_MAP_START: u64 = 0xFFFFA00000000000;

/// Physical memory direct mapping end.
pub const PHYS_MAP_END: u64 = 0xFFFFB00000000000;

/// Recursive page table mapping start.
pub const PAGE_TABLE_START: u64 = 0xFFFFFF0000000000;

/// Recursive page table mapping end.
pub const PAGE_TABLE_END: u64 = 0xFFFFFF8000000000;

/// User code start.
pub const USER_START: usize = 0x400000;

/// User heap start.
pub const USER_HEAP_START: usize = 0x10000000;

/// User heap end.
pub const USER_HEAP_END: usize = 0x40000000;

/// User stack top (grows down).
pub const USER_STACK_TOP: u64 = 0x7FFFFFFFFFFF;

/// Default user stack size (8 MB).
pub const USER_STACK_SIZE: usize = 8 * 1024 * 1024;

/// Shared library region start.
pub const SHARED_LIB_START: usize = 0x40000000;

/// Shared library region end.
pub const SHARED_LIB_END: usize = 0x80000000;

} // verus!
