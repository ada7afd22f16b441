use ironveil::nexis_kernel::drivers::kb::{Kb, KeyInput, XorShift64, KEYCODE_BACKSPACE, KEYCODE_RETURN};
use ironveil::nexis_kernel::drivers::rtc::{self, days_in_month, is_leap_year, DateTime, RtcDriver, RtcRegisters};
use ironveil::nexis_kernel::drivers::{Driver, TimerDriver};
use ironveil::nexis_kernel::interrupt::idt::setup_double_fault_stack;
use ironveil::nexis_kernel::interrupt::pic::{remap_pic, Pics};
use ironveil::nexis_kernel::interrupt::handlers::{log_exception, report_gp_fault_details, report_page_fault_details};
use ironveil::nexis_kernel::drivers::vga::{Console, VgaWriter};
use ironveil::nexis_kernel::drivers::{InputDriver, OutputDriver};
use ironveil::nexis_kernel::interrupt::timer::{init_timer, ms_to_ticks, ticks_to_ms, TimerState};
use ironveil::nexis_kernel::memory::frame_allocator::{BitmapFrameAllocator, FrameAllocator};
use ironveil::nexis_kernel::memory::heap::HeapAllocator;
use ironveil::nexis_kernel::memory::layout::utils;
use ironveil::nexis_kernel::memory::layout::{MemoryRegion, MemoryRegionType};
use ironveil::nexis_kernel::memory::{free_frame_count, PhysAddr, PhysFrame};
use ironveil::nexis_kernel::scheduler::context_switch::{init_task_context, validate_stack_pointer};
use ironveil::nexis_kernel::scheduler::preemptive::{
    disable_preemption, enable_preemption, enter_critical_section, exit_critical_section, is_preemption_enabled,
    request_preemption, time_slice_for_priority, yield_with_preemption_check, PreemptionState, Priority,
    TIME_SLICE_TICKS,
};
use ironveil::nexis_kernel::scheduler::task::{alloc_stack, create_kernel_task, prepare_stack, TaskId, TaskState, TaskTable, MAX_TASKS};
use ironveil::nexis_kernel::scheduler::{spawn, switch_to_task, Scheduler, SwitchAction};
use ironveil::nexis_kernel::memory::layout::MemoryLayout;
use ironveil::nexis_kernel::interrupt::timer::timer_tick;
use ironveil::nexis_kernel::syscall_handler_rust;

#[test]
fn test_datetime_creation() {
    let dt = DateTime::new();
    assert_eq!(dt.year, 0);
    assert_eq!(dt.month, 0);
}

#[test]
fn test_leap_year() {
    assert!(is_leap_year(2000));
    assert!(is_leap_year(2004));
    assert!(!is_leap_year(1900));
    assert!(!is_leap_year(2001));
}

#[test]
fn test_days_in_month() {
    assert_eq!(days_in_month(1, 2023), 31);
    assert_eq!(days_in_month(2, 2023), 28);
    assert_eq!(days_in_month(2, 2024), 29);
    assert_eq!(days_in_month(4, 2023), 30);
}

#[test]
fn test_bcd_conversion() {
    assert_eq!(RtcDriver::bcd_to_binary(0x23), 23);
    assert_eq!(RtcDriver::bcd_to_binary(0x59), 59);
    assert_eq!(RtcDriver::binary_to_bcd(23), 0x23);
    assert_eq!(RtcDriver::binary_to_bcd(59), 0x59);
}

#[test]
fn bcd_round_trip_below_one_hundred() {
    for x in 0u8..100 {
        assert_eq!(RtcDriver::bcd_to_binary(RtcDriver::binary_to_bcd(x)), x);
    }
}

#[test]
fn set_then_read_gives_the_time_back() {
    let mut rtc = RtcDriver::new();
    let boot = DateTime { year: 2024, month: 2, day: 29, weekday: 4, hour: 23, minute: 59, second: 58 };
    rtc::init(&mut rtc).unwrap();
    for status_b in [0x02u8, 0x06u8] {
        let writes = rtc.set_datetime(&boot, status_b).unwrap();
        assert_eq!(writes.len(), 8);
        let regs = RtcRegisters {
            status_b,
            second: writes[1].1,
            minute: writes[2].1,
            hour: writes[3].1,
            weekday: 4,
            day: writes[4].1,
            month: writes[5].1,
            year: writes[6].1,
        };
        assert_eq!(rtc.read_datetime(regs), boot);
    }
}

#[test]
fn set_datetime_refused_before_init() {
    let rtc = RtcDriver::new();
    assert!(rtc.set_datetime(&DateTime::new(), 0x02).is_err());
}

#[test]
fn unix_timestamp_and_format() {
    let dt = DateTime { year: 2024, month: 3, day: 1, weekday: 5, hour: 12, minute: 30, second: 5 };
    assert_eq!(dt.to_unix_timestamp(), 1709296205);
    assert_eq!(dt.format(), "2024-03-01 12:30:05");
    let epoch = DateTime { year: 1970, month: 1, day: 1, weekday: 4, hour: 0, minute: 0, second: 0 };
    assert_eq!(epoch.to_unix_timestamp(), 0);
}

#[test]
fn test_allocate_single_frame() {
    let mut allocator = BitmapFrameAllocator::new(0x8000, 1024, PhysFrame(0x100000), 8192).unwrap();
    let frame = allocator.allocate_frame().unwrap();
    assert_eq!(frame.0, 0x100000);
    assert_eq!(allocator.free_frame_count(), 8191);
}

#[test]
fn test_deallocate_frame() {
    let mut allocator = BitmapFrameAllocator::new(0x8000, 1024, PhysFrame(0x100000), 8192).unwrap();
    let frame = allocator.allocate_frame().unwrap();
    allocator.deallocate_frame(frame);
    assert_eq!(allocator.free_frame_count(), 8192);
}

#[test]
fn test_allocate_all_frames() {
    let mut allocator = BitmapFrameAllocator::new(0x8000, 1, PhysFrame(0x100000), 8).unwrap();
    for _ in 0..8 {
        assert!(allocator.allocate_frame().is_some());
    }
    assert!(allocator.allocate_frame().is_none());
    assert_eq!(allocator.free_frame_count(), 0);
}

#[test]
fn frames_come_out_lowest_first_and_freed_one_returns() {
    let mut allocator = BitmapFrameAllocator::new(0x8000, 2, PhysFrame(0x200000), 16).unwrap();
    let a = allocator.allocate_frame().unwrap();
    let b = allocator.allocate_frame().unwrap();
    assert_eq!(a.0, 0x200000);
    assert_eq!(b.0, 0x201000);
    allocator.deallocate_frame(a);
    assert_eq!(allocator.allocate_frame().unwrap().0, 0x200000);
}

#[test]
fn frame_allocator_refuses_bad_bitmaps() {
    assert!(BitmapFrameAllocator::new(0, 1024, PhysFrame(0x100000), 8).is_err());
    assert!(BitmapFrameAllocator::new(0x8000, 1, PhysFrame(0x100000), 9).is_err());
}

#[test]
fn test_basic_allocation() {
    let vec: Vec<u8> = Vec::with_capacity(10);
    assert_eq!(vec.len(), 0);
    assert!(vec.capacity() >= 10);
}

#[test]
fn heap_allocation_is_aligned_and_freed_space_returns() {
    let mut heap = HeapAllocator::new(0x1000_0000, 0x10000);
    let mut frames: Option<BitmapFrameAllocator> = None;
    let a = heap.allocate(&mut frames, 100, 64).unwrap();
    assert_eq!(a % 64, 0);
    assert!(a >= 0x1000_0000 && a + 100 <= 0x1001_0000);
    let used = heap.allocated_bytes();
    assert!(used >= 100);
    heap.deallocate(a, 100);
    assert_eq!(heap.allocated_bytes(), 0);
}

#[test]
fn test_memory_region() {
    let region = MemoryRegion::new(PhysAddr(0x100000), 0x200000, MemoryRegionType::Available);
    assert_eq!(region.start, PhysAddr(0x100000));
    assert_eq!(region.end(), PhysAddr(0x300000));
    assert!(region.contains(PhysAddr(0x200000)));
    assert!(!region.contains(PhysAddr(0x400000)));
}

#[test]
fn test_address_alignment() {
    assert_eq!(utils::align_up(0x1234), 0x2000);
    assert_eq!(utils::align_down(0x1234), 0x1000);
    assert!(utils::is_aligned(0x2000));
    assert!(!utils::is_aligned(0x1234));
}

#[test]
fn test_frame_conversion() {
    assert_eq!(utils::bytes_to_frames(4096), 1);
    assert_eq!(utils::bytes_to_frames(4097), 2);
    assert_eq!(utils::frames_to_bytes(2), 8192);
}

#[test]
fn test_stack_pointer_validation() {
    let stack_base = 0x1000;
    let stack_size = 4096;
    assert!(validate_stack_pointer(0x1800, stack_base, stack_size));
    assert!(!validate_stack_pointer(0x800, stack_base, stack_size));
    assert!(!validate_stack_pointer(0x2100, stack_base, stack_size));
    assert!(!validate_stack_pointer(0x1801, stack_base, stack_size));
}

#[test]
fn test_context_init() {
    let stack_top = 0x2000;
    let sp = init_task_context(stack_top, 0x4000);
    assert!(sp < stack_top);
    assert_eq!(sp & 0xF, 0);
    assert!(sp >= stack_top - 8 * core::mem::size_of::<usize>());
}

#[test]
fn test_preemption_enable_disable() {
    let mut p = PreemptionState::new();
    assert!(is_preemption_enabled(&p));
    disable_preemption(&mut p);
    assert!(!is_preemption_enabled(&p));
    enable_preemption(&mut p);
    assert!(is_preemption_enabled(&p));
}

#[test]
fn test_critical_section() {
    let mut p = PreemptionState::new();
    let mut t = TimerState::new();
    let mut s = Scheduler::new();
    enable_preemption(&mut p);
    let was_enabled = enter_critical_section(&mut p);
    assert!(was_enabled);
    assert!(!is_preemption_enabled(&p));
    exit_critical_section(&mut p, &mut t, &mut s, was_enabled);
    assert!(is_preemption_enabled(&p));
}

#[test]
fn critical_section_keeps_preemption_off_when_it_was_off() {
    let mut p = PreemptionState::new();
    let mut t = TimerState::new();
    let mut s = Scheduler::new();
    disable_preemption(&mut p);
    let was_enabled = enter_critical_section(&mut p);
    assert!(!was_enabled);
    exit_critical_section(&mut p, &mut t, &mut s, was_enabled);
    assert!(!is_preemption_enabled(&p));
}

#[test]
fn test_time_slice_calculation() {
    assert_eq!(time_slice_for_priority(Priority::High), TIME_SLICE_TICKS / 2);
    assert_eq!(time_slice_for_priority(Priority::Normal), TIME_SLICE_TICKS);
    assert_eq!(time_slice_for_priority(Priority::Low), TIME_SLICE_TICKS * 2);
}

#[test]
fn test_task_table_creation() {
    let table = TaskTable::new();
    for i in 0..MAX_TASKS {
        assert_eq!(table.tasks[i].state, TaskState::Terminated);
    }
}

#[test]
fn test_find_free_slot() {
    let mut table = TaskTable::new();
    assert_eq!(table.find_free_slot(), Some(0));
    table.tasks[0].state = TaskState::Ready;
    assert_eq!(table.find_free_slot(), Some(1));
}

#[test]
fn test_stack_preparation() {
    let stack_base = 0x1000;
    let stack_size = 4096;
    let rsp = prepare_stack(0x4000, stack_base, stack_size);
    assert!(rsp < stack_base + stack_size);
    assert!(rsp >= stack_base);
    assert_eq!(rsp & 0xF, 0);
}

#[test]
fn scancodes_come_out_in_order() {
    let mut kb = Kb::new();
    kb.push_scancode(1);
    kb.push_scancode(2);
    kb.push_scancode(3);
    assert_eq!(kb.queue_len(), 3);
    assert_eq!(kb.read_scancode(), Some(1));
    kb.push_scancode(4);
    assert_eq!(kb.read_scancode(), Some(2));
    assert_eq!(kb.read_scancode(), Some(3));
    assert_eq!(kb.read_scancode(), Some(4));
    assert_eq!(kb.read_scancode(), None);
}

#[test]
fn keyboard_read_fills_the_buffer_front() {
    let mut kb = Kb::new();
    kb.push_scancode(7);
    kb.push_scancode(8);
    let mut buf = [0u8; 4];
    assert_eq!(kb.read(&mut buf), Ok(2));
    assert_eq!(buf, [7, 8, 0, 0]);
    assert!(!kb.has_input());
}

#[test]
fn keyboard_decodes_a_letter_and_a_line() {
    let mut kb = Kb::new();
    assert_eq!(kb.decode(0x1E), Some(KeyInput::Char('a')));
    let mut con = Console::new();
    for sc in [0x23u8, 0x17, 0x1C] {
        kb.push_scancode(sc);
    }
    assert_eq!(kb.read_line_irq(&mut con).as_deref(), Some("hi"));
    assert_eq!(con.serial, "hi\n");
}

#[test]
fn generator_never_sticks_at_zero() {
    let mut rng = XorShift64::new(0);
    assert_eq!(rng.state, 1);
    for _ in 0..1000 {
        assert_ne!(rng.next_u64(), 0);
    }
}

#[test]
fn vga_write_refuses_invalid_utf8() {
    let mut vga = VgaWriter::new();
    assert!(vga.write(&[0xff, 0xfe]).is_err());
    assert_eq!(vga.write("ok".as_bytes()), Ok(2));
    assert_eq!(vga.get_cursor_position(), (2, 0));
}

#[test]
fn tick_conversions_round_down() {
    let mut t = TimerState::new();
    init_timer(&mut t, 100);
    assert_eq!(ticks_to_ms(&t, 150), 1500);
    assert_eq!(ms_to_ticks(&t, 1500), 150);
    assert_eq!(ms_to_ticks(&t, 19), 1);
    assert!(ms_to_ticks(&t, ticks_to_ms(&t, 7)) <= 7);
}

#[test]
fn rtc_driver_init_sets_binary_mode_and_boot_time() {
    let mut rtc = RtcDriver::new();
    assert!(!rtc.is_initialized());
    assert_eq!(rtc.name(), "Real-Time Clock Driver");
    Driver::init(&mut rtc).unwrap();
    assert!(rtc.is_initialized());
    assert_eq!(rtc.clock.status_b, 0x06);
    // The power-on registers read as 2000-01-01 00:00:00.
    assert_eq!(rtc.boot_time, 946684800);
    assert_eq!(rtc.get_timestamp(), 946684800);
}

#[test]
fn rtc_driver_timestamp_of_latched_registers() {
    let mut rtc = RtcDriver::new();
    rtc.latch(RtcRegisters {
        status_b: 0x02,
        second: 0x05,
        minute: 0x30,
        hour: 0x12,
        weekday: 5,
        day: 0x01,
        month: 0x03,
        year: 0x24,
    });
    assert_eq!(rtc.get_timestamp(), 1709296205);
    assert!(rtc.set_alarm(1709296300).is_err());
    assert_eq!(rtc.get_timestamp(), 1709296205);
}

#[test]
fn rtc_driver_cleanup_turns_interrupts_off() {
    let mut rtc = RtcDriver::new();
    rtc.latch(RtcRegisters { status_b: 0x56, second: 0, minute: 0, hour: 0, weekday: 1, day: 1, month: 1, year: 0x24 });
    Driver::init(&mut rtc).unwrap();
    Driver::cleanup(&mut rtc).unwrap();
    assert!(!rtc.is_initialized());
    assert_eq!(rtc.clock.status_b, 0x06);
}

#[test]
fn double_fault_stack_is_reported_in_hex() {
    let mut con = Console::new();
    setup_double_fault_stack(&mut con, 0x1f000);
    assert_eq!(con.serial, "Double fault stack configured at 0x1f000\n");
}

#[test]
fn exception_log_lists_code_and_context() {
    let mut con = Console::new();
    log_exception(&mut con, "INVALID TSS", Some(0x18), 0xdead, 0x7000, 0x202);
    assert_eq!(
        con.serial,
        "\n*** EXCEPTION: INVALID TSS ***\nError code: 0x18\nInstruction pointer: 0xdead\nStack pointer: 0x7000\nCPU flags: 0x202\n"
    );
    let mut con = Console::new();
    log_exception(&mut con, "BREAKPOINT", None, 1, 2, 3);
    assert_eq!(con.serial, "\n*** EXCEPTION: BREAKPOINT ***\nInstruction pointer: 0x1\nStack pointer: 0x2\nCPU flags: 0x3\n");
}

#[test]
fn gp_fault_error_code_is_decoded() {
    let mut con = Console::new();
    report_gp_fault_details(&mut con, 0);
    assert_eq!(con.serial, "");
    // External, LDT, selector index 5.
    report_gp_fault_details(&mut con, (5 << 3) | (2 << 1) | 1);
    assert_eq!(con.serial, "Error details:\n  External: true\n  Table: 2 (LDT)\n  Index: 0x5\n");
    let mut con = Console::new();
    report_gp_fault_details(&mut con, (0x21 << 3) | (3 << 1));
    assert_eq!(con.serial, "Error details:\n  External: false\n  Table: 3 (IDT)\n  Index: 0x21\n");
}

#[test]
fn page_fault_error_code_is_decoded() {
    let mut con = Console::new();
    report_page_fault_details(&mut con, 0b10111);
    assert_eq!(
        con.serial,
        "Error details:\n  Caused by: protection violation\n  Access type: write\n  Origin: user mode\n  Instruction fetch: yes\n"
    );
    let mut con = Console::new();
    report_page_fault_details(&mut con, 0);
    assert_eq!(
        con.serial,
        "Error details:\n  Caused by: page not present\n  Access type: read\n  Origin: kernel mode\n  Instruction fetch: no\n"
    );
}

#[test]
fn pic_remap_sequence_and_messages() {
    let pics = Pics::new(32, 40);
    let mut con = Console::new();
    let writes = remap_pic(&pics, &mut con);
    assert_eq!(con.serial, "Remapping PIC...\nPIC remapped successfully\n");
    let first: Vec<(u16, u8)> = writes.iter().map(|w| (w.port, w.value)).collect();
    // Init command to both, then the vector offsets.
    assert_eq!(first[0], (0x20, 0x11));
    assert_eq!(first[1], (0x80, 0));
    assert_eq!(first[2], (0xA0, 0x11));
    assert_eq!(first[4], (0x21, 32));
    assert_eq!(first[6], (0xA1, 40));
    assert_eq!(*first.last().unwrap(), (0xA1, 0xFF));
}

#[test]
fn stack_takes_the_lowest_free_frames() {
    let mut frames = Some(BitmapFrameAllocator::new(0x8000, 1, PhysFrame(0x100000), 8).unwrap());
    assert_eq!(alloc_stack(&mut frames, 3), Some((0x100000, 3 * 4096)));
    assert_eq!(free_frame_count(&frames), 5);
    assert_eq!(alloc_stack(&mut frames, 2), Some((0x103000, 2 * 4096)));
    assert_eq!(free_frame_count(&frames), 3);
}

#[test]
fn failed_stack_returns_its_frames() {
    let mut frames = Some(BitmapFrameAllocator::new(0x8000, 1, PhysFrame(0x100000), 8).unwrap());
    assert_eq!(alloc_stack(&mut frames, 2), Some((0x100000, 2 * 4096)));
    assert_eq!(alloc_stack(&mut frames, 7), None);
    assert_eq!(free_frame_count(&frames), 6);
    assert_eq!(alloc_stack(&mut frames, 6), Some((0x102000, 6 * 4096)));
    assert_eq!(free_frame_count(&frames), 0);
}

#[test]
fn stack_of_no_pages_or_no_allocator_fails() {
    let mut frames = Some(BitmapFrameAllocator::new(0x8000, 1, PhysFrame(0x100000), 8).unwrap());
    assert_eq!(alloc_stack(&mut frames, 0), None);
    assert_eq!(free_frame_count(&frames), 8);
    let mut none: Option<BitmapFrameAllocator> = None;
    assert_eq!(alloc_stack(&mut none, 2), None);
    assert!(none.is_none());
}

#[test]
fn kernel_task_gets_a_prepared_stack() {
    let mut frames = Some(BitmapFrameAllocator::new(0x8000, 1, PhysFrame(0x200000), 8).unwrap());
    let t = create_kernel_task(0x1234, 2, &mut frames).unwrap();
    assert_eq!(t.tid, TaskId(0));
    assert_eq!(t.state, TaskState::Ready);
    assert_eq!(t.stack_base, 0x200000);
    assert_eq!(t.stack_size, 8192);
    assert_eq!(t.rsp, 0x200000 + 8192 - 64);
    assert_eq!(free_frame_count(&frames), 6);
    assert!(create_kernel_task(0x1234, 7, &mut frames).is_none());
    assert_eq!(free_frame_count(&frames), 6);
    assert!(create_kernel_task(0x1234, 0, &mut frames).is_none());
}

#[test]
fn decoded_keys_edit_the_line() {
    let mut kb = Kb::new();
    let mut con = Console::new();
    assert_eq!(kb.line_input_key(&mut con, None), None);
    assert_eq!(con.serial, "");
    assert_eq!(kb.line_input_key(&mut con, Some(KeyInput::Char('o'))), None);
    assert_eq!(kb.line_input_key(&mut con, Some(KeyInput::Char('k'))), None);
    assert_eq!(kb.line, vec!['o', 'k']);
    assert_eq!(kb.line_input_key(&mut con, Some(KeyInput::Raw(KEYCODE_BACKSPACE))), None);
    assert_eq!(kb.line, vec!['o']);
    assert_eq!(kb.line_input_key(&mut con, Some(KeyInput::Raw(KEYCODE_RETURN))).as_deref(), Some("o"));
    assert!(kb.line.is_empty());
}

#[test]
fn scancodes_edit_the_line() {
    let mut kb = Kb::new();
    let mut con = Console::new();
    assert_eq!(kb.line_input(&mut con, 0x23), None);
    assert_eq!(kb.line_input(&mut con, 0xA3), None);
    assert_eq!(kb.line, vec!['h']);
    assert_eq!(kb.line_input(&mut con, 0x1C).as_deref(), Some("h"));
    assert!(kb.line.is_empty());
}

#[test]
fn only_character_keys_give_characters() {
    assert_eq!(Kb::char_of_key(Some(KeyInput::Char('x'))), Some('x'));
    assert_eq!(Kb::char_of_key(Some(KeyInput::Raw(KEYCODE_RETURN))), None);
    assert_eq!(Kb::char_of_key(Some(KeyInput::Raw(5))), None);
    assert_eq!(Kb::char_of_key(None), None);
    let mut kb = Kb::new();
    assert_eq!(kb.char_input(0x1E), Some('a'));
    assert_eq!(kb.char_input(0x9E), None);
}

#[test]
fn drivers_report_their_names() {
    assert_eq!(Kb::new().name(), "PS/2 Keyboard Driver");
    assert_eq!(VgaWriter::new().name(), "VGA Text Mode Driver");
    assert_eq!(RtcDriver::new().name(), "Real-Time Clock Driver");
}

#[test]
fn preempted_yield_switches_twice_round_robin() {
    let mut frames = Some(BitmapFrameAllocator::new(0x8000, 1, PhysFrame(0x100000), 8).unwrap());
    let mut s = Scheduler::new();
    assert_eq!(spawn(&mut s, 0x1000, &mut frames, 1), Some(0));
    assert_eq!(spawn(&mut s, 0x2000, &mut frames, 1), Some(1));
    assert_eq!(switch_to_task(&mut s, 0), Some(SwitchAction::Start { to: 0 }));
    let mut p = PreemptionState::new();
    let mut t = TimerState::new();
    enable_preemption(&mut p);
    request_preemption(&mut p, &mut t);
    let actions = yield_with_preemption_check(&mut p, &mut t, &mut s);
    assert_eq!(actions, vec![SwitchAction::Switch { from: 0, to: 1 }, SwitchAction::Switch { from: 1, to: 0 }]);
    assert_eq!(s.current, Some(0));
    assert!(!p.pending && !t.need_reschedule);
    assert_eq!(p.count, 1);
}

#[test]
fn critical_section_exit_runs_a_pending_preemption() {
    let mut frames = Some(BitmapFrameAllocator::new(0x8000, 1, PhysFrame(0x100000), 8).unwrap());
    let mut s = Scheduler::new();
    spawn(&mut s, 0x1000, &mut frames, 1);
    spawn(&mut s, 0x2000, &mut frames, 1);
    switch_to_task(&mut s, 0);
    let mut p = PreemptionState::new();
    let mut t = TimerState::new();
    enable_preemption(&mut p);
    let was = enter_critical_section(&mut p);
    request_preemption(&mut p, &mut t);
    assert_eq!(exit_critical_section(&mut p, &mut t, &mut s, was), Some(SwitchAction::Switch { from: 0, to: 1 }));
    assert_eq!(s.current, Some(1));
}

#[test]
fn line_reading_applies_backspaces_in_order() {
    let mut kb = Kb::new();
    let mut con = Console::new();
    for sc in [0x0Eu8, 0x23, 0x17, 0x0E, 0x1C] {
        kb.push_scancode(sc);
    }
    assert_eq!(kb.read_line_irq(&mut con).as_deref(), Some("h"));
    assert_eq!(kb.queue_len(), 0);
    assert!(kb.line.is_empty());
}

#[test]
fn line_reading_on_an_empty_queue_keeps_the_line() {
    let mut kb = Kb::new();
    let mut con = Console::new();
    kb.push_scancode(0x23);
    assert_eq!(kb.read_line_irq(&mut con), None);
    assert_eq!(kb.line, vec!['h']);
    assert_eq!(kb.read_line_irq(&mut con), None);
    assert_eq!(kb.line, vec!['h']);
}

#[test]
fn full_memory_layout_refuses_with_a_message() {
    let mut l = MemoryLayout::new();
    for i in 0..64usize {
        let region = MemoryRegion::new(PhysAddr(0x1000 * (64 - i)), 0x1000, MemoryRegionType::Available);
        assert_eq!(l.add_region(region), Ok(()));
    }
    let extra = MemoryRegion::new(PhysAddr(0x900000), 0x1000, MemoryRegionType::Available);
    assert_eq!(l.add_region(extra), Err("Too many memory regions"));
}

#[test]
fn alignment_works_up_to_the_top_frame() {
    let top = usize::MAX - 4095;
    assert_eq!(utils::align_up(top), top);
    assert_eq!(utils::align_up(top - 1), top);
    assert_eq!(utils::bytes_to_frames(top), top / 4096);
}

#[test]
fn tick_count_wraps_without_a_frequency() {
    let mut t = TimerState::new();
    t.tick_count = u64::MAX;
    timer_tick(&mut t);
    assert_eq!(t.tick_count, 0);
    assert!(t.need_reschedule);
    assert_eq!(t.last_tick_time, u64::MAX);
}

fn fresh_kernel() -> ironveil::nexis_kernel::Kernel {
    ironveil::nexis_kernel::Kernel {
        console: Console::new(),
        keyboard: Kb::new(),
        timer: TimerState::new(),
        preemption: PreemptionState::new(),
        scheduler: Scheduler::new(),
        frames: Some(BitmapFrameAllocator::new(0x8000, 1, PhysFrame(0x100000), 8).unwrap()),
        heap: None,
        uptime: 42,
        entropy: [0; 4],
        pending_switch: None,
    }
}

#[test]
fn system_calls_report_errors_as_max() {
    let mut k = fresh_kernel();
    assert_eq!(syscall_handler_rust(&mut k, 16, 0, 0, 0, &[]), u64::MAX);
    assert_eq!(syscall_handler_rust(&mut k, 2, 0, 0, 0, &[]), u64::MAX);
    assert_eq!(syscall_handler_rust(&mut k, 1, 3, 0, 2, b"hi"), u64::MAX);
    assert_eq!(k.console.serial, "");
    assert_eq!(syscall_handler_rust(&mut k, 8, 0, 0, 0, &[]), 42);
    assert_eq!(syscall_handler_rust(&mut k, 1, 1, 0, 2, b"hi"), 2);
    assert_eq!(k.console.serial, "hi");
    assert_eq!(syscall_handler_rust(&mut k, 9, 64, 8, 0, &[]), u64::MAX);
}

#[test]
fn system_calls_create_run_and_end_tasks() {
    let mut k = fresh_kernel();
    assert_eq!(syscall_handler_rust(&mut k, 11, 0x4000, 8192, 0, &[]), 1);
    assert_eq!(free_frame_count(&k.frames), 6);
    assert_eq!(syscall_handler_rust(&mut k, 6, 0, 0, 0, &[]), u64::MAX);
    assert_eq!(syscall_handler_rust(&mut k, 5, 0, 0, 0, &[]), 0);
    assert_eq!(k.pending_switch, None);
    switch_to_task(&mut k.scheduler, 0);
    assert_eq!(syscall_handler_rust(&mut k, 6, 0, 0, 0, &[]), 1);
    assert_eq!(syscall_handler_rust(&mut k, 0, 0, 0, 0, &[]), 0);
    assert_eq!(k.scheduler.current, None);
    assert_eq!(k.scheduler.table.tasks[0].state, TaskState::Terminated);
}

#[test]
fn key_code_numbers_are_pc_keyboards() {
    assert_eq!(KEYCODE_RETURN, pc_keyboard::KeyCode::Return as u8);
    assert_eq!(KEYCODE_BACKSPACE, pc_keyboard::KeyCode::Backspace as u8);
    let mut kb = Kb::new();
    assert_eq!(kb.decode(0xE0), None);
    assert_eq!(kb.decode(0x48), Some(KeyInput::Raw(pc_keyboard::KeyCode::ArrowUp as u8)));
}
