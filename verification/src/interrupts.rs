use vstd::prelude::*;
use vstd::string::StringSliceAdditionalSpecFns;
use vstd::utf8::{encode_scalar, encode_utf8};
use crate::gdt::DOUBLE_FAULT_IST_INDEX;
use crate::keyborad::{scancode_outcome, DecodedInput, KeyboardInput, RawKey};
use crate::vga_buffer::{lemma_write_bytes_concat, lemma_write_one_byte, state_backspace, state_write_bytes, Writer, WriterState};

verus! {

/// First vector of the primary PIC; the 32 vectors below it are the CPU's exceptions.
pub const PIC_1_OFFSET: u8 = 32;
/// First vector of the secondary PIC, right after the eight lines of the primary one.
pub const PIC_2_OFFSET: u8 = PIC_1_OFFSET + 8;

/// Vector of the breakpoint exception (`int3`).
pub const BREAKPOINT_VECTOR: u8 = 3;
/// Vector of the double fault exception.
pub const DOUBLE_FAULT_VECTOR: u8 = 8;
/// Vector of the page fault exception.
pub const PAGE_FAULT_VECTOR: u8 = 14;

/// The hardware interrupts that the kernel handles, on the lines of the primary PIC.
#[derive(Debug, Clone, Copy, PartialEq, Eq, Structural)]
pub enum InterruptIndex {
    /// The timer, on the first line.
    Timer,
    /// The keyboard, on the line after the timer.
    Keyboard,
}

/// The interrupt vector of a hardware interrupt.
pub open spec fn interrupt_vector(index: InterruptIndex) -> u8 {
    match index {
        InterruptIndex::Timer => PIC_1_OFFSET,
        InterruptIndex::Keyboard => (PIC_1_OFFSET + 1) as u8,
    }
}

impl From<InterruptIndex> for u8 {
    fn from(value: InterruptIndex) -> (r: u8) {
        match value {
            InterruptIndex::Timer => PIC_1_OFFSET,
            InterruptIndex::Keyboard => PIC_1_OFFSET + 1,
        }
    }
}

impl vstd::std_specs::convert::FromSpecImpl<InterruptIndex> for u8 {
    open spec fn obeys_from_spec() -> bool {
        true
    }

    open spec fn from_spec(v: InterruptIndex) -> u8 {
        interrupt_vector(v)
    }
}

impl From<InterruptIndex> for usize {
    fn from(value: InterruptIndex) -> (r: usize) {
        match value {
            InterruptIndex::Timer => 32,
            InterruptIndex::Keyboard => 33,
        }
    }
}

impl vstd::std_specs::convert::FromSpecImpl<InterruptIndex> for usize {
    open spec fn obeys_from_spec() -> bool {
        true
    }

    open spec fn from_spec(v: InterruptIndex) -> usize {
        interrupt_vector(v) as usize
    }
}

/// The handlers that the kernel installs.
#[derive(Debug, Clone, Copy, PartialEq, Eq, Structural)]
pub enum Handler {
    Breakpoint,
    PageFault,
    DoubleFault,
    Timer,
    Keyboard,
}

/// One entry of the interrupt descriptor table: a vector, its handler, and the interrupt
/// stack table slot the handler runs on, if it has its own stack.
#[derive(Debug, Clone, Copy, PartialEq, Eq)]
pub struct IdtEntry {
    pub vector: u8,
    pub handler: Handler,
    pub stack_index: Option<u16>,
}

/// The interrupt descriptor table the kernel loads, entry by entry in the order they are set.
pub open spec fn idt_layout() -> Seq<IdtEntry> {
    seq![
        IdtEntry { vector: BREAKPOINT_VECTOR, handler: Handler::Breakpoint, stack_index: None },
        IdtEntry { vector: PAGE_FAULT_VECTOR, handler: Handler::PageFault, stack_index: None },
        IdtEntry {
            vector: DOUBLE_FAULT_VECTOR,
            handler: Handler::DoubleFault,
            stack_index: Some(DOUBLE_FAULT_IST_INDEX),
        },
        IdtEntry {
            vector: interrupt_vector(InterruptIndex::Timer),
            handler: Handler::Timer,
            stack_index: None,
        },
        IdtEntry {
            vector: interrupt_vector(InterruptIndex::Keyboard),
            handler: Handler::Keyboard,
            stack_index: None,
        },
    ]
}

/// The entries of the interrupt descriptor table: breakpoint and page fault handlers,
/// the double fault handler on its own stack, and the timer and keyboard handlers.
pub fn init_idt() -> (entries: Vec<IdtEntry>)
    ensures
        entries@ == idt_layout(),
{
    let mut entries: Vec<IdtEntry> = Vec::new();
    entries.push(
        IdtEntry { vector: BREAKPOINT_VECTOR, handler: Handler::Breakpoint, stack_index: None },
    );
    entries.push(
        IdtEntry { vector: PAGE_FAULT_VECTOR, handler: Handler::PageFault, stack_index: None },
    );
    entries.push(
        IdtEntry {
            vector: DOUBLE_FAULT_VECTOR,
            handler: Handler::DoubleFault,
            stack_index: Some(DOUBLE_FAULT_IST_INDEX),
        },
    );
    entries.push(
        IdtEntry {
            vector: u8::from(InterruptIndex::Timer),
            handler: Handler::Timer,
            stack_index: None,
        },
    );
    entries.push(
        IdtEntry {
            vector: u8::from(InterruptIndex::Keyboard),
            handler: Handler::Keyboard,
            stack_index: None,
        },
    );
    assert(entries@ =~= idt_layout());
    entries
}

/// The hardware interrupts sit on consecutive lines of the primary PIC, above the CPU's
/// exception vectors, and both conversions of an index give the same vector.
pub proof fn lemma_interrupt_vectors(index: InterruptIndex)
    ensures
        PIC_1_OFFSET <= interrupt_vector(index) < PIC_2_OFFSET,
        interrupt_vector(InterruptIndex::Keyboard) == interrupt_vector(InterruptIndex::Timer) + 1,
        <usize as vstd::std_specs::convert::FromSpec<InterruptIndex>>::from_spec(index)
            == <u8 as vstd::std_specs::convert::FromSpec<InterruptIndex>>::from_spec(index) as usize,
{
}

/// No two handlers share a vector, and only the double fault handler has a stack of its own.
pub proof fn lemma_idt_layout()
    ensures
        forall|i: int, j: int|
            0 <= i < j < idt_layout().len() ==> #[trigger] idt_layout()[i].vector
                != #[trigger] idt_layout()[j].vector,
        forall|i: int|
            0 <= i < idt_layout().len() ==> (#[trigger] idt_layout()[i].stack_index is Some
                <==> idt_layout()[i].handler == Handler::DoubleFault),
{
}

/// What the screen receives for a decoded key: a character as its UTF-8 bytes, Enter as
/// a line feed, another key as `2` and its name; no text for Backspace, which erases.
pub open spec fn key_text(key: DecodedInput) -> Option<Seq<u8>> {
    match key {
        DecodedInput::Unicode(c) => if c == '\u{8}' {
            None
        } else {
            Some(encode_utf8(seq![c]))
        },
        DecodedInput::RawKey(RawKey::Enter) => Some(seq![0x0au8]),
        DecodedInput::RawKey(RawKey::Other(name)) => Some(seq![0x32u8] + encode_utf8(name@)),
    }
}

/// A one-character string is encoded as that character's scalar.
proof fn lemma_encode_one_char(c: char)
    ensures
        encode_utf8(seq![c]) == encode_scalar(c as u32),
{
    let s = seq![c];
    assert(s[0] == c);
    assert(s.drop_first() =~= Seq::<char>::empty());
    assert(encode_utf8(s.drop_first()) == Seq::<u8>::empty());
    assert(encode_utf8(s) =~= encode_scalar(c as u32) + encode_utf8(s.drop_first()));
}

/// The UTF-8 encoding of one character.
fn encode_char(c: char) -> (bytes: Vec<u8>)
    ensures
        bytes@ == encode_utf8(seq![c]),
{
    let u = c as u32;
    proof {
        vstd::utf8::char_is_scalar(c);
        lemma_encode_one_char(c);
    }
    let mut bytes: Vec<u8> = Vec::new();
    if u <= 0x7f {
        bytes.push((u & 0x7f) as u8);
    } else if u <= 0x7ff {
        bytes.push(0xc0u8 | ((u >> 6u32) & 0x1f) as u8);
        bytes.push(0x80u8 | (u & 0x3f) as u8);
    } else if u <= 0xffff {
        bytes.push(0xe0u8 | ((u >> 12u32) & 0x0f) as u8);
        bytes.push(0x80u8 | ((u >> 6u32) & 0x3f) as u8);
        bytes.push(0x80u8 | (u & 0x3f) as u8);
    } else {
        bytes.push(0xf0u8 | ((u >> 18u32) & 0x7) as u8);
        bytes.push(0x80u8 | ((u >> 12u32) & 0x3f) as u8);
        bytes.push(0x80u8 | ((u >> 6u32) & 0x3f) as u8);
        bytes.push(0x80u8 | (u & 0x3f) as u8);
    }
    assert(bytes@ =~= encode_scalar(u));
    bytes
}

/// Writes one character as its UTF-8 bytes.
fn write_char(writer: &mut Writer, c: char)
    requires
        old(writer).wf(),
    ensures
        final(writer).wf(),
        final(writer)@ == state_write_bytes(old(writer)@, encode_utf8(seq![c])),
{
    let bytes = encode_char(c);
    writer.write_bytes(bytes.as_slice());
}

/// What a decoded key does to the writer: Backspace erases, any other key writes its text.
pub open spec fn key_effect(s: WriterState, key: DecodedInput) -> WriterState {
    match key_text(key) {
        Some(text) => state_write_bytes(s, text),
        None => state_backspace(s),
    }
}

/// Shows a decoded key on the screen: Backspace erases the cell before the cursor, any
/// other key writes its text.
pub fn handle_key(writer: &mut Writer, key: &DecodedInput)
    requires
        old(writer).wf(),
    ensures
        final(writer).wf(),
        final(writer)@ == key_effect(old(writer)@, *key),
{
    match key {
        DecodedInput::Unicode(c) => {
            if *c == '\u{8}' {
                writer.backspace();
            } else {
                write_char(writer, *c);
            }
        },
        DecodedInput::RawKey(RawKey::Enter) => {
            let ghost start = writer@;
            writer.write_byte(0x0a);
            proof {
                lemma_write_one_byte(start, 0x0au8);
            }
        },
        DecodedInput::RawKey(RawKey::Other(name)) => {
            let ghost start = writer@;
            writer.write_byte(0x32);
            proof {
                lemma_write_one_byte(start, 0x32u8);
            }
            let text = name.as_str();
            writer.write_string(text);
            proof {
                lemma_write_bytes_concat(start, seq![0x32u8], encode_utf8(name@));
            }
        },
    }
}

/// What each kind of key does to the writer: a character other than Backspace is written
/// as its UTF-8 bytes, Backspace erases, Enter writes a line feed, and any other key
/// writes `2` followed by its name.
pub proof fn lemma_key_effect(s: WriterState, c: char, name: String)
    ensures
        c != '\u{8}' ==> key_effect(s, DecodedInput::Unicode(c)) == state_write_bytes(
            s,
            encode_utf8(seq![c]),
        ),
        key_effect(s, DecodedInput::Unicode('\u{8}')) == state_backspace(s),
        key_effect(s, DecodedInput::RawKey(RawKey::Enter)) == state_write_bytes(s, seq![0x0au8]),
        key_effect(s, DecodedInput::RawKey(RawKey::Other(name))) == state_write_bytes(
            s,
            seq![0x32u8] + encode_utf8(name@),
        ),
{
}

/// The vectors of the hardware interrupts: the timer on vector 32, the keyboard on 33.
pub proof fn lemma_interrupt_vector_values()
    ensures
        interrupt_vector(InterruptIndex::Timer) == 32,
        interrupt_vector(InterruptIndex::Keyboard) == 33,
{
}

/// A typed ASCII character other than Backspace reaches the screen as its own byte.
pub proof fn lemma_key_text_ascii(c: char)
    requires
        (c as u32) < 0x80,
        c != '\u{8}',
    ensures
        key_text(DecodedInput::Unicode(c)) == Some(seq![c as u8]),
{
    lemma_encode_one_char(c);
    let u = c as u32;
    assert((u & 0x7f) as u8 == u as u8) by (bit_vector)
        requires
            u < 0x80,
    ;
    assert(encode_scalar(u) =~= seq![c as u8]);
}

/// The keyboard's part of its interrupt: feeds the scan code to the decoder; when that
/// completes a key event, hands the event back to the decoder, and shows and returns the
/// key it decodes. With no event (an error, a byte inside a sequence) or no key (a
/// release, a modifier), it returns `None` and leaves the screen as it is.
pub fn handle_scancode(input: &mut KeyboardInput, writer: &mut Writer, scancode: u8) -> (key:
    Option<DecodedInput>)
    requires
        old(writer).wf(),
    ensures
        final(input).fed() == old(input).fed().push(scancode),
        (final(input).decoder(), key) == scancode_outcome(old(input).decoder(), scancode),
        final(writer).wf(),
        key is None ==> final(writer)@ == old(writer)@,
        key is Some ==> final(writer)@ == key_effect(old(writer)@, key.unwrap()),
{
    if let Ok(Some(event)) = input.add_byte(scancode) {
        let answer = input.process_keyevent(event);
        if let Some(key) = &answer {
            handle_key(writer, key);
        }
        answer
    } else {
        None
    }
}

} // verus!
