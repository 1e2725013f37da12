use operating_system::interrupts::{
    breakpoint_handler, double_fault_handler, init_idt, keyboard_interrupt_handler,
    page_fault_handler, timer_interrupt_handler, DispatchTable, Entry, Handler, InterruptIndex,
    Fatal, FatalExit, Outcome, PageFaultCause, Report, TimerCount, BREAKPOINT_VECTOR, CPU_EXCEPTION_VECTORS,
    DOUBLE_FAULT_IST_INDEX, DOUBLE_FAULT_VECTOR, KEYBOARD_DATA_PORT, PAGE_FAULT_VECTOR,
    PIC_1_OFFSET, PIC_2_OFFSET,
};

#[test]
fn controller_offsets_are_clear_of_the_cpu_exceptions() {
    assert_eq!(PIC_1_OFFSET, 32);
    assert_eq!(PIC_2_OFFSET, 40);
    assert_eq!(CPU_EXCEPTION_VECTORS, 32);
    assert_eq!(KEYBOARD_DATA_PORT, 0x60);
    assert!(PIC_1_OFFSET >= CPU_EXCEPTION_VECTORS);
}

#[test]
fn timer_count_starts_at_zero_and_counts_by_one() {
    let mut count = TimerCount::new();
    assert_eq!(count.ticks(), 0);
    count.increment();
    assert_eq!(count.ticks(), 1);
    count.increment();
    count.increment();
    assert_eq!(count.ticks(), 3);
}

#[test]
fn timer_count_wraps_to_zero() {
    let mut count = TimerCount(u32::MAX - 1);
    count.increment();
    assert_eq!(count.ticks(), u32::MAX);
    count.increment();
    assert_eq!(count.ticks(), 0);
    count.increment();
    assert_eq!(count.ticks(), 1);
}

#[test]
fn interrupt_index_gives_the_vector() {
    assert_eq!(InterruptIndex::Timer.as_u8(), 32);
    assert_eq!(InterruptIndex::Keyboard.as_u8(), 33);
}

#[test]
fn new_table_is_empty() {
    let table = DispatchTable::new();
    for vector in 0..=u8::MAX {
        assert_eq!(table.entry(vector), None);
    }
}

#[test]
fn set_handler_fills_one_vector() {
    let mut table = DispatchTable::new();
    table.set_handler(255, Handler::Timer);
    table.set_handler(0, Handler::Breakpoint);
    for vector in 0..=u8::MAX {
        let expected = match vector {
            0 => Some(Entry { handler: Handler::Breakpoint, stack_index: None }),
            255 => Some(Entry { handler: Handler::Timer, stack_index: None }),
            _ => None,
        };
        assert_eq!(table.entry(vector), expected);
    }
}

#[test]
fn set_handler_again_takes_the_stack_away() {
    let mut table = DispatchTable::new();
    table.set_handler(8, Handler::DoubleFault);
    table.set_stack_index(8, 5);
    assert_eq!(
        table.entry(8),
        Some(Entry { handler: Handler::DoubleFault, stack_index: Some(5) })
    );
    table.set_handler(8, Handler::PageFault);
    assert_eq!(table.entry(8), Some(Entry { handler: Handler::PageFault, stack_index: None }));
}

#[test]
fn set_stack_index_leaves_an_empty_vector_empty() {
    let mut table = DispatchTable::new();
    table.set_stack_index(8, 1);
    for vector in 0..=u8::MAX {
        assert_eq!(table.entry(vector), None);
    }
}

#[test]
fn init_idt_installs_the_five_handlers() {
    let table = init_idt();
    assert_eq!(BREAKPOINT_VECTOR, 3);
    assert_eq!(DOUBLE_FAULT_VECTOR, 8);
    assert_eq!(PAGE_FAULT_VECTOR, 14);
    assert_eq!(DOUBLE_FAULT_IST_INDEX, 0);
    for vector in 0..=u8::MAX {
        let expected = match vector {
            3 => Some(Entry { handler: Handler::Breakpoint, stack_index: None }),
            8 => Some(Entry { handler: Handler::DoubleFault, stack_index: Some(0) }),
            14 => Some(Entry { handler: Handler::PageFault, stack_index: None }),
            32 => Some(Entry { handler: Handler::Timer, stack_index: None }),
            33 => Some(Entry { handler: Handler::Keyboard, stack_index: None }),
            _ => None,
        };
        assert_eq!(table.entry(vector), expected, "vector {vector}");
    }
}

#[test]
fn breakpoint_is_reported_without_end_of_interrupt() {
    assert_eq!(
        breakpoint_handler(),
        Outcome { report: Some(Report::Breakpoint), scancode: None, end_of_interrupt: None }
    );
}

#[test]
fn page_fault_is_reported_and_halts() {
    let fatal = page_fault_handler(0xdead_beaf, 0b00010);
    assert_eq!(
        fatal,
        Fatal {
            report: Report::PageFault {
                address: 0xdead_beaf,
                cause: PageFaultCause {
                    present: false,
                    write: true,
                    user: false,
                    reserved: false,
                    instruction_fetch: false
                }
            },
            exit: FatalExit::Halt
        }
    );
    for error_code in [0u64, 1, 0x1f, u64::MAX, 0x8000_0000] {
        assert_eq!(page_fault_handler(0, error_code).exit, FatalExit::Halt);
    }
}

#[test]
fn page_fault_cause_reads_the_low_five_bits() {
    for error_code in 0..64u64 {
        let cause = PageFaultCause::decode(error_code);
        assert_eq!(cause.present, error_code & 0b00001 != 0);
        assert_eq!(cause.write, error_code & 0b00010 != 0);
        assert_eq!(cause.user, error_code & 0b00100 != 0);
        assert_eq!(cause.reserved, error_code & 0b01000 != 0);
        assert_eq!(cause.instruction_fetch, error_code & 0b10000 != 0);
    }
    assert_eq!(
        PageFaultCause::decode(0b10101),
        PageFaultCause {
            present: true,
            write: false,
            user: true,
            reserved: false,
            instruction_fetch: true
        }
    );
    assert_eq!(PageFaultCause::decode(0xffff_ffff_ffff_ffe0), PageFaultCause::decode(0));
    assert_eq!(PageFaultCause::decode(u64::MAX), PageFaultCause::decode(0x1f));
}

#[test]
fn double_fault_aborts() {
    assert_eq!(
        double_fault_handler(),
        Fatal { report: Report::DoubleFault, exit: FatalExit::Abort }
    );
}

#[test]
fn timer_handler_counts_and_signals_the_timer_vector() {
    let mut count = TimerCount::new();
    let mut signalled: Vec<u8> = Vec::new();
    for _ in 0..1000 {
        let outcome = timer_interrupt_handler(&mut count);
        assert_eq!(outcome.report, None);
        assert_eq!(outcome.scancode, None);
        if let Some(vector) = outcome.end_of_interrupt {
            signalled.push(vector);
        }
    }
    assert_eq!(count.ticks(), 1000);
    assert_eq!(signalled, vec![32u8; 1000]);
    assert!(!signalled.contains(&33));
}

#[test]
fn timer_handler_wraps_the_count() {
    let mut count = TimerCount(u32::MAX);
    let outcome = timer_interrupt_handler(&mut count);
    assert_eq!(count.ticks(), 0);
    assert_eq!(outcome.end_of_interrupt, Some(32));
}

#[test]
fn keyboard_handler_queues_each_byte_in_order() {
    let port: Vec<u8> = vec![0x1e, 0x9e, 0x00, 0xff, 0x1e, 0xe0, 0x48];
    let mut queued: Vec<u8> = Vec::new();
    let mut signalled: Vec<u8> = Vec::new();
    for byte in port.iter() {
        let outcome = keyboard_interrupt_handler(*byte);
        if let Some(scancode) = outcome.scancode {
            queued.push(scancode);
        }
        if let Some(vector) = outcome.end_of_interrupt {
            signalled.push(vector);
        }
    }
    assert_eq!(queued, port);
    assert_eq!(signalled, vec![33u8; 7]);
}

#[test]
fn keyboard_handler_passes_every_byte_on() {
    for byte in 0..=u8::MAX {
        assert_eq!(
            keyboard_interrupt_handler(byte),
            Outcome { report: None, scancode: Some(byte), end_of_interrupt: Some(33) }
        );
    }
}
