use vstd::prelude::*;
use pc_keyboard::layouts::Us104Key;
use pc_keyboard::{DecodedKey, KeyCode, ScancodeSet1};

verus! {

/// A key event that the PS/2 decoder reports.
#[verifier::external_type_specification]
#[verifier::external_body]
pub struct ExKeyEvent(pc_keyboard::KeyEvent);

/// An error that the PS/2 decoder reports.
#[verifier::external_type_specification]
#[verifier::external_body]
pub struct ExKeyboardError(pc_keyboard::Error);

/// The keyboard's decoder state: scan code set 1 and the US 104-key layout.
///
/// The decoder keeps state between bytes (extended codes, releases, modifier keys), so
/// what it reports for a byte depends on the bytes before it. Its value holds only that
/// state, not the bytes that led to it.
#[verifier::external_body]
pub struct ScancodeDecoder {
    pub keyboard: pc_keyboard::Keyboard<Us104Key, ScancodeSet1>,
}

/// A key without a character, as the decoder names it.
#[derive(Debug, Clone, PartialEq, Eq)]
pub enum RawKey {
    /// The Enter key.
    Enter,
    /// Any other key, by the name that its key code prints as.
    Other(String),
}

/// A decoded key press: a character, or a key without one.
#[derive(Debug, Clone, PartialEq, Eq)]
pub enum DecodedInput {
    Unicode(char),
    RawKey(RawKey),
}

/// What `pc_keyboard::Keyboard::add_byte` does with a byte: the decoder afterwards and
/// the event or error it reports. The call is deterministic, a function of the decoder
/// and the byte.
pub uninterp spec fn add_byte_outcome(decoder: ScancodeDecoder, byte: u8) -> (
    ScancodeDecoder,
    Result<Option<pc_keyboard::KeyEvent>, pc_keyboard::Error>,
);

/// What `pc_keyboard::Keyboard::process_keyevent` does with an event, its answer taken as
/// a `DecodedInput`: the decoder afterwards and the decoded key, if any. The call is
/// deterministic, a function of the decoder and the event.
pub uninterp spec fn keyevent_outcome(decoder: ScancodeDecoder, event: pc_keyboard::KeyEvent) -> (
    ScancodeDecoder,
    Option<DecodedInput>,
);

impl ScancodeDecoder {
    /// Feeds one byte to `pc_keyboard::Keyboard::add_byte`. The decoder afterwards and the
    /// result are `add_byte_outcome` of the decoder before and the byte; what that is on
    /// given values depends on the decoder's hidden state and is not stated.
    #[verifier::external_body]
    pub(crate) fn add_byte(&mut self, byte: u8) -> (r: Result<
        Option<pc_keyboard::KeyEvent>,
        pc_keyboard::Error,
    >)
        ensures
            (*final(self), r) == add_byte_outcome(*old(self), byte),
    {
        self.keyboard.add_byte(byte)
    }

    /// Hands a key event to `pc_keyboard::Keyboard::process_keyevent` and turns the
    /// `DecodedKey` into a `DecodedInput`, a key code by its `Debug` name. The decoder
    /// afterwards and the result are `keyevent_outcome` of the decoder before and the
    /// event; what that is on given values depends on the modifier keys held and is not
    /// stated.
    #[verifier::external_body]
    pub(crate) fn process_keyevent(&mut self, ev: pc_keyboard::KeyEvent) -> (r: Option<
        DecodedInput,
    >)
        ensures
            (*final(self), r) == keyevent_outcome(*old(self), ev),
    {
        match self.keyboard.process_keyevent(ev) {
            Some(DecodedKey::Unicode(c)) => Some(DecodedInput::Unicode(c)),
            Some(DecodedKey::RawKey(KeyCode::Enter)) => Some(DecodedInput::RawKey(RawKey::Enter)),
            Some(DecodedKey::RawKey(code)) => Some(
                DecodedInput::RawKey(RawKey::Other(format!("{:?}", code))),
            ),
            None => None,
        }
    }
}

/// The keyboard's input side: the decoder and, as a record, every byte fed to it.
pub struct KeyboardInput {
    decoder: ScancodeDecoder,
    fed: Ghost<Seq<u8>>,
}

impl KeyboardInput {
    /// The decoder's current state.
    pub closed spec fn decoder(&self) -> ScancodeDecoder {
        self.decoder
    }

    /// The bytes fed to the decoder, oldest first.
    pub closed spec fn fed(&self) -> Seq<u8> {
        self.fed@
    }

    /// Input through `decoder`, with nothing fed yet.
    pub fn new(decoder: ScancodeDecoder) -> (input: KeyboardInput)
        ensures
            input.decoder() == decoder,
            input.fed() == Seq::<u8>::empty(),
    {
        KeyboardInput { decoder, fed: Ghost(Seq::empty()) }
    }

    /// Feeds `byte` to the decoder and records it.
    pub(crate) fn add_byte(&mut self, byte: u8) -> (r: Result<
        Option<pc_keyboard::KeyEvent>,
        pc_keyboard::Error,
    >)
        ensures
            (final(self).decoder(), r) == add_byte_outcome(old(self).decoder(), byte),
            final(self).fed() == old(self).fed().push(byte),
    {
        let r = self.decoder.add_byte(byte);
        proof {
            self.fed@ = self.fed@.push(byte);
        }
        r
    }

    /// Hands a key event to the decoder.
    pub(crate) fn process_keyevent(&mut self, ev: pc_keyboard::KeyEvent) -> (r: Option<
        DecodedInput,
    >)
        ensures
            (final(self).decoder(), r) == keyevent_outcome(old(self).decoder(), ev),
            final(self).fed() == old(self).fed(),
    {
        self.decoder.process_keyevent(ev)
    }
}

/// What feeding a byte to the decoder gives: the decoder afterwards and, when the byte
/// completes a key event, the key that event decodes to.
pub open spec fn scancode_outcome(decoder: ScancodeDecoder, byte: u8) -> (
    ScancodeDecoder,
    Option<DecodedInput>,
) {
    let (after_byte, event) = add_byte_outcome(decoder, byte);
    match event {
        Ok(Some(ev)) => keyevent_outcome(after_byte, ev),
        _ => (after_byte, None),
    }
}

/// Set 1 make code of the Enter key.
pub const SCANCODE_ENTER: u8 = 0x1c;
/// Set 1 make code of the Backspace key.
pub const SCANCODE_BACKSPACE: u8 = 0x0e;

/// The keys of the number row, from make code 0x02 on.
pub open spec fn number_row() -> Seq<char> {
    seq!['1', '2', '3', '4', '5', '6', '7', '8', '9', '0', '-', '=']
}

/// The keys of the upper letter row, from make code 0x10 on.
pub open spec fn upper_row() -> Seq<char> {
    seq!['q', 'w', 'e', 'r', 't', 'y', 'u', 'i', 'o', 'p', '[', ']']
}

/// The keys of the middle letter row, from make code 0x1e on.
pub open spec fn home_row() -> Seq<char> {
    seq!['a', 's', 'd', 'f', 'g', 'h', 'j', 'k', 'l', ';', '\'']
}

/// The keys of the lower letter row, from make code 0x2c on.
pub open spec fn lower_row() -> Seq<char> {
    seq!['z', 'x', 'c', 'v', 'b', 'n', 'm', ',', '.', '/']
}

/// The unshifted US character of a scan code set 1 make code, for the four rows of
/// character keys; no character for any other code.
pub open spec fn scancode_char(sc: u8) -> Option<char> {
    if 0x02 <= sc <= 0x0d {
        Some(number_row()[sc - 0x02])
    } else if 0x10 <= sc <= 0x1b {
        Some(upper_row()[sc - 0x10])
    } else if 0x1e <= sc <= 0x28 {
        Some(home_row()[sc - 0x1e])
    } else if 0x2c <= sc <= 0x35 {
        Some(lower_row()[sc - 0x2c])
    } else {
        None
    }
}

/// Translates a make code of scan code set 1 into the character of its key, if the key
/// is one of the character keys of the four main rows.
pub fn scancode_to_ascii(sc: u8) -> (c: Option<char>)
    ensures
        c == scancode_char(sc),
{
    let table_1: [char; 12] = ['1', '2', '3', '4', '5', '6', '7', '8', '9', '0', '-', '='];
    let table_2: [char; 12] = ['q', 'w', 'e', 'r', 't', 'y', 'u', 'i', 'o', 'p', '[', ']'];
    let table_3: [char; 11] = ['a', 's', 'd', 'f', 'g', 'h', 'j', 'k', 'l', ';', '\''];
    let table_4: [char; 10] = ['z', 'x', 'c', 'v', 'b', 'n', 'm', ',', '.', '/'];
    assert(table_1@ =~= number_row());
    assert(table_2@ =~= upper_row());
    assert(table_3@ =~= home_row());
    assert(table_4@ =~= lower_row());
    if 0x02 <= sc && sc <= 0x0d {
        Some(table_1[(sc - 0x02) as usize])
    } else if 0x10 <= sc && sc <= 0x1b {
        Some(table_2[(sc - 0x10) as usize])
    } else if 0x1e <= sc && sc <= 0x28 {
        Some(table_3[(sc - 0x1e) as usize])
    } else if 0x2c <= sc && sc <= 0x35 {
        Some(table_4[(sc - 0x2c) as usize])
    } else {
        None
    }
}

/// The keys of the four rows in their order on a US keyboard, each row from its first
/// make code on; every other make code has no character.
pub proof fn lemma_scancode_keys()
    ensures
        forall|k: int|
            0 <= k < 12 ==> #[trigger] scancode_char((0x02 + k) as u8) == Some(
                "1234567890-="@[k],
            ),
        forall|k: int|
            0 <= k < 12 ==> #[trigger] scancode_char((0x10 + k) as u8) == Some(
                "qwertyuiop[]"@[k],
            ),
        forall|k: int|
            0 <= k < 11 ==> #[trigger] scancode_char((0x1e + k) as u8) == Some(
                "asdfghjkl;'"@[k],
            ),
        forall|k: int|
            0 <= k < 10 ==> #[trigger] scancode_char((0x2c + k) as u8) == Some("zxcvbnm,./"@[k]),
        forall|sc: u8|
            !(0x02 <= sc <= 0x0d || 0x10 <= sc <= 0x1b || 0x1e <= sc <= 0x28 || 0x2c <= sc
                <= 0x35) ==> #[trigger] scancode_char(sc) is None,
{
    reveal_strlit("1234567890-=");
    reveal_strlit("qwertyuiop[]");
    reveal_strlit("asdfghjkl;'");
    reveal_strlit("zxcvbnm,./");
    assert(number_row() =~= "1234567890-="@);
    assert(upper_row() =~= "qwertyuiop[]"@);
    assert(home_row() =~= "asdfghjkl;'"@);
    assert(lower_row() =~= "zxcvbnm,./"@);
}

/// The row of character keys that a make code falls in, with the row's first make code.
pub open spec fn row_of(sc: u8) -> (Seq<char>, int) {
    if 0x02 <= sc <= 0x0d {
        (number_row(), 0x02)
    } else if 0x10 <= sc <= 0x1b {
        (upper_row(), 0x10)
    } else if 0x1e <= sc <= 0x28 {
        (home_row(), 0x1e)
    } else {
        (lower_row(), 0x2c)
    }
}

/// No two make codes give the same character: the translation can be read backwards.
pub proof fn lemma_scancode_char_injective(a: u8, b: u8)
    requires
        scancode_char(a) is Some,
        scancode_char(a) == scancode_char(b),
    ensures
        a == b,
{
    let (ra, oa) = row_of(a);
    let (rb, ob) = row_of(b);
    assert(ra[a - oa] == rb[b - ob]);
}

} // verus!
