use vstd::prelude::*;

verus! {

/// Interrupt stack table slot of the double fault handler's stack.
pub const DOUBLE_FAULT_IST_INDEX: u16 = 0;

/// Size in bytes of the double fault handler's stack: five 4 KiB pages.
pub const STACK_SIZE: usize = 4096 * 5;

/// A descriptor the kernel adds to its global descriptor table.
#[derive(Debug, Clone, Copy, PartialEq, Eq, Structural)]
pub enum Descriptor {
    /// The 64-bit kernel code segment, loaded into CS.
    KernelCode,
    /// The task state segment, whose interrupt stack table holds the double fault stack.
    Tss,
}

/// The descriptors after the null entry, in the order they are added.
pub open spec fn gdt_layout() -> Seq<Descriptor> {
    seq![Descriptor::KernelCode, Descriptor::Tss]
}

/// The descriptors of the global descriptor table, in the order they are added: the
/// kernel code segment, then the task state segment.
pub fn gdt_entries() -> (entries: Vec<Descriptor>)
    ensures
        entries@ == gdt_layout(),
{
    let mut entries: Vec<Descriptor> = Vec::new();
    entries.push(Descriptor::KernelCode);
    entries.push(Descriptor::Tss);
    assert(entries@ =~= gdt_layout());
    entries
}

/// The address the task state segment's slot `DOUBLE_FAULT_IST_INDEX` holds for a stack
/// starting at `stack_start`: its end, since the stack grows down.
pub fn double_fault_stack_end(stack_start: u64) -> (end: u64)
    requires
        stack_start + STACK_SIZE <= u64::MAX,
    ensures
        end == stack_start + STACK_SIZE,
{
    stack_start + STACK_SIZE as u64
}

} // verus!
