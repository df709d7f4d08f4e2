use blog_os::gdt::{double_fault_stack_end, gdt_entries, Descriptor, DOUBLE_FAULT_IST_INDEX, STACK_SIZE};
use blog_os::interrupts::{
    init_idt, Handler, IdtEntry, InterruptIndex, BREAKPOINT_VECTOR, DOUBLE_FAULT_VECTOR,
    PAGE_FAULT_VECTOR, PIC_1_OFFSET, PIC_2_OFFSET,
};

#[test]
fn pic_offsets() {
    assert_eq!(PIC_1_OFFSET, 32);
    assert_eq!(PIC_2_OFFSET, 40);
}

#[test]
fn interrupt_index_conversions() {
    assert_eq!(u8::from(InterruptIndex::Timer), 32);
    assert_eq!(u8::from(InterruptIndex::Keyboard), 33);
    assert_eq!(usize::from(InterruptIndex::Timer), 32);
    assert_eq!(usize::from(InterruptIndex::Keyboard), 33);
    for i in [InterruptIndex::Timer, InterruptIndex::Keyboard] {
        assert_eq!(usize::from(i), u8::from(i) as usize);
        assert!(PIC_1_OFFSET <= u8::from(i) && u8::from(i) < PIC_2_OFFSET);
    }
}

#[test]
fn idt_entries() {
    let entries = init_idt();
    assert_eq!(
        entries,
        vec![
            IdtEntry { vector: BREAKPOINT_VECTOR, handler: Handler::Breakpoint, stack_index: None },
            IdtEntry { vector: PAGE_FAULT_VECTOR, handler: Handler::PageFault, stack_index: None },
            IdtEntry {
                vector: DOUBLE_FAULT_VECTOR,
                handler: Handler::DoubleFault,
                stack_index: Some(DOUBLE_FAULT_IST_INDEX),
            },
            IdtEntry { vector: 32, handler: Handler::Timer, stack_index: None },
            IdtEntry { vector: 33, handler: Handler::Keyboard, stack_index: None },
        ]
    );
    assert_eq!((BREAKPOINT_VECTOR, DOUBLE_FAULT_VECTOR, PAGE_FAULT_VECTOR), (3, 8, 14));
}

#[test]
fn idt_vectors_are_distinct() {
    let entries = init_idt();
    for i in 0..entries.len() {
        for j in i + 1..entries.len() {
            assert_ne!(entries[i].vector, entries[j].vector);
        }
    }
}

#[test]
fn double_fault_stack() {
    assert_eq!(DOUBLE_FAULT_IST_INDEX, 0);
    assert_eq!(STACK_SIZE, 20480);
}

#[test]
fn gdt_entries_in_order() {
    assert_eq!(gdt_entries(), vec![Descriptor::KernelCode, Descriptor::Tss]);
}

#[test]
fn double_fault_stack_end_is_past_the_stack() {
    assert_eq!(double_fault_stack_end(0x1000), 0x1000 + 20480);
    assert_eq!(double_fault_stack_end(0), STACK_SIZE as u64);
    assert_eq!(double_fault_stack_end(u64::MAX - 20480), u64::MAX);
}
