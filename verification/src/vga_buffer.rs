use vstd::prelude::*;
use vstd::string::StringSliceAdditionalSpecFns;

verus! {

/// The sixteen colours of the VGA text mode palette.
#[derive(Debug, Clone, Copy, PartialEq, Eq, Structural)]
pub enum Color {
    Black,
    Blue,
    Green,
    Cyan,
    Red,
    Magenta,
    Brown,
    LightGary,
    DarkGray,
    LightBlue,
    LightGreen,
    LightCyan,
    LightRed,
    Pink,
    Yellow,
    White,
}

/// The palette index of a colour.
pub open spec fn color_index(c: Color) -> u8 {
    match c {
        Color::Black => 0,
        Color::Blue => 1,
        Color::Green => 2,
        Color::Cyan => 3,
        Color::Red => 4,
        Color::Magenta => 5,
        Color::Brown => 6,
        Color::LightGary => 7,
        Color::DarkGray => 8,
        Color::LightBlue => 9,
        Color::LightGreen => 10,
        Color::LightCyan => 11,
        Color::LightRed => 12,
        Color::Pink => 13,
        Color::Yellow => 14,
        Color::White => 15,
    }
}

impl Color {
    /// The palette index of this colour, as the hardware reads it.
    pub fn index(self) -> (i: u8)
        ensures
            i == color_index(self),
            i < 16,
    {
        match self {
            Color::Black => 0,
            Color::Blue => 1,
            Color::Green => 2,
            Color::Cyan => 3,
            Color::Red => 4,
            Color::Magenta => 5,
            Color::Brown => 6,
            Color::LightGary => 7,
            Color::DarkGray => 8,
            Color::LightBlue => 9,
            Color::LightGreen => 10,
            Color::LightCyan => 11,
            Color::LightRed => 12,
            Color::Pink => 13,
            Color::Yellow => 14,
            Color::White => 15,
        }
    }
}

/// An attribute byte: background colour in the high nibble, foreground in the low one.
#[derive(Debug, Clone, Copy, PartialEq, Eq, Structural)]
pub struct ColorCode(pub u8);

impl ColorCode {
    /// The attribute byte for `foreground` text on a `background`.
    pub fn new(foreground: Color, background: Color) -> (code: ColorCode)
        ensures
            code.0 == color_index(background) * 16 + color_index(foreground),
    {
        let fg = foreground.index();
        let bg = background.index();
        let v = (bg << 4u8) | fg;
        assert(v == bg * 16 + fg) by (bit_vector)
            requires
                v == (bg << 4u8) | fg,
                bg < 16,
                fg < 16,
        ;
        ColorCode(v)
    }
}

/// Rows of the VGA text screen.
pub const BUFFER_HEIGHT: usize = 25;
/// Columns of the VGA text screen.
pub const BUFFER_WIDTH: usize = 80;
/// Cells of the VGA text screen.
pub const BUFFER_CELLS: usize = 2000;

/// One cell of the text screen: a code page 437 byte and its attribute.
#[derive(Debug, Clone, Copy, PartialEq, Eq, Structural)]
pub struct ScreenChar {
    pub character: u8,
    pub color_code: ColorCode,
}

/// The text screen, row by row: cell (row, col) is at `row * BUFFER_WIDTH + col`.
pub struct Buffer {
    pub chars: Vec<ScreenChar>,
}

impl Buffer {
    /// A screen whose every cell holds `fill`.
    pub fn filled(fill: ScreenChar) -> (b: Buffer)
        ensures
            b.chars@ == Seq::new(BUFFER_CELLS as nat, |i: int| fill),
    {
        let mut chars: Vec<ScreenChar> = Vec::new();
        let mut i: usize = 0;
        while i < BUFFER_CELLS
            invariant
                i <= BUFFER_CELLS,
                chars@ == Seq::new(i as nat, |k: int| fill),
            decreases BUFFER_CELLS - i,
        {
            chars.push(fill);
            i = i + 1;
        }
        Buffer { chars }
    }
}

/// What a writer is, as the contracts speak of it: the cursor, the colour and the cells.
pub ghost struct WriterState {
    pub x: int,
    pub y: int,
    pub color_code: ColorCode,
    pub cells: Seq<ScreenChar>,
}

/// The index of cell (row, col) in the row-major screen.
pub open spec fn cell_index(row: int, col: int) -> int {
    row * (BUFFER_WIDTH as int) + col
}

/// A space in the given colour.
pub open spec fn blank(color_code: ColorCode) -> ScreenChar {
    ScreenChar { character: 0x20u8, color_code }
}

/// The cursor stays on the screen (one past the last column is allowed) and the screen has its size.
pub open spec fn state_wf(s: WriterState) -> bool {
    &&& 0 <= s.x <= BUFFER_WIDTH
    &&& 0 <= s.y < BUFFER_HEIGHT
    &&& s.cells.len() == BUFFER_CELLS
}

/// The cells after every row moved up by one and the last row was blanked.
pub open spec fn scrolled(cells: Seq<ScreenChar>, color_code: ColorCode) -> Seq<ScreenChar> {
    Seq::new(
        BUFFER_CELLS as nat,
        |i: int|
            if i < cell_index(BUFFER_HEIGHT - 1, 0) {
                cells[i + BUFFER_WIDTH]
            } else {
                blank(color_code)
            },
    )
}

/// The cells after row `row` was blanked.
pub open spec fn cleared_row(cells: Seq<ScreenChar>, row: int, color_code: ColorCode) -> Seq<ScreenChar> {
    Seq::new(
        cells.len(),
        |i: int|
            if cell_index(row, 0) <= i < cell_index(row + 1, 0) {
                blank(color_code)
            } else {
                cells[i]
            },
    )
}

/// A line break: the cursor goes to the start of the next row, or, on the last row,
/// the screen scrolls up by one row.
pub open spec fn state_new_line(s: WriterState) -> WriterState {
    if s.y + 1 < BUFFER_HEIGHT {
        WriterState { x: 0, y: s.y + 1, ..s }
    } else {
        WriterState { x: 0, cells: scrolled(s.cells, s.color_code), ..s }
    }
}

/// A byte other than a line feed: wrap if the row is full, store the byte under the cursor, advance.
pub open spec fn state_put_byte(s: WriterState, byte: u8) -> WriterState {
    let t = if s.x >= BUFFER_WIDTH { state_new_line(s) } else { s };
    WriterState {
        x: t.x + 1,
        cells: t.cells.update(
            cell_index(t.y, t.x),
            ScreenChar { character: byte, color_code: t.color_code },
        ),
        ..t
    }
}

/// One byte as `write_byte` handles it.
pub open spec fn state_write_byte(s: WriterState, byte: u8) -> WriterState {
    if byte == 0x0au8 {
        state_new_line(s)
    } else {
        state_put_byte(s, byte)
    }
}

/// An erase: the cursor steps back one column and that cell is blanked; at the start of
/// a row nothing happens.
pub open spec fn state_backspace(s: WriterState) -> WriterState {
    if s.x > 0 {
        WriterState {
            x: s.x - 1,
            cells: s.cells.update(cell_index(s.y, s.x - 1), blank(s.color_code)),
            ..s
        }
    } else {
        s
    }
}

/// Printable ASCII and the line feed go through; any other byte is shown as the block 0xfe.
pub open spec fn shown_byte(byte: u8) -> u8 {
    if (0x20u8 <= byte && byte <= 0x7eu8) || byte == 0x0au8 {
        byte
    } else {
        0xfeu8
    }
}

/// A byte string as `write_string` handles it, one byte after the other.
pub open spec fn state_write_bytes(s: WriterState, bytes: Seq<u8>) -> WriterState
    decreases bytes.len(),
{
    if bytes.len() == 0 {
        s
    } else {
        state_write_byte(state_write_bytes(s, bytes.drop_last()), shown_byte(bytes.last()))
    }
}

/// Writes text to the VGA screen, row after row, scrolling when the last row is full.
pub struct Writer {
    x: usize,
    y: usize,
    color_code: ColorCode,
    buffer: Buffer,
}

impl View for Writer {
    type V = WriterState;

    closed spec fn view(&self) -> WriterState {
        WriterState {
            x: self.x as int,
            y: self.y as int,
            color_code: self.color_code,
            cells: self.buffer.chars@,
        }
    }
}

impl Writer {
    /// The writer's invariant.
    pub open spec fn wf(&self) -> bool {
        state_wf(self@)
    }

    /// A writer at the top left corner of `buffer`, writing in `color_code`.
    pub fn new(color_code: ColorCode, buffer: Buffer) -> (w: Writer)
        requires
            buffer.chars@.len() == BUFFER_CELLS,
        ensures
            w.wf(),
            w@ == (WriterState { x: 0, y: 0, color_code, cells: buffer.chars@ }),
    {
        Writer { x: 0, y: 0, color_code, buffer }
    }

    /// The cursor's column: where the next byte goes, or `BUFFER_WIDTH` once the row is full.
    pub fn column_position(&self) -> (x: usize)
        ensures
            x == self@.x,
    {
        self.x
    }

    /// The cursor's row.
    pub fn row_position(&self) -> (y: usize)
        ensures
            y == self@.y,
    {
        self.y
    }

    /// The colour the writer writes in.
    pub fn color_code(&self) -> (c: ColorCode)
        ensures
            c == self@.color_code,
    {
        self.color_code
    }

    /// The cell at `row`, `col`.
    pub fn char_at(&self, row: usize, col: usize) -> (c: ScreenChar)
        requires
            self.wf(),
            row < BUFFER_HEIGHT,
            col < BUFFER_WIDTH,
        ensures
            c == self@.cells[cell_index(row as int, col as int)],
    {
        self.buffer.chars[row * BUFFER_WIDTH + col]
    }

    /// Blanks row `row` in the writer's colour.
    fn clear_row(&mut self, row: usize)
        requires
            old(self).wf(),
            row < BUFFER_HEIGHT,
        ensures
            final(self)@ == (WriterState {
                cells: cleared_row(old(self)@.cells, row as int, old(self)@.color_code),
                ..old(self)@
            }),
    {
        let blank = ScreenChar { character: 0x20u8, color_code: self.color_code };
        let ghost before = self.buffer.chars@;
        let mut col: usize = 0;
        while col < BUFFER_WIDTH
            invariant
                col <= BUFFER_WIDTH,
                row < BUFFER_HEIGHT,
                blank == crate::vga_buffer::blank(self.color_code),
                self.x == old(self).x,
                self.y == old(self).y,
                self.color_code == old(self).color_code,
                before == old(self).buffer.chars@,
                self.buffer.chars@.len() == BUFFER_CELLS,
                forall|i: int|
                    0 <= i < BUFFER_CELLS ==> #[trigger] self.buffer.chars@[i] == if cell_index(
                        row as int,
                        0,
                    ) <= i < cell_index(row as int, col as int) {
                        blank
                    } else {
                        before[i]
                    },
            decreases BUFFER_WIDTH - col,
        {
            self.buffer.chars.set(row * BUFFER_WIDTH + col, blank);
            col = col + 1;
        }
        assert(self.buffer.chars@ =~= cleared_row(before, row as int, self.color_code));
    }

    /// Moves the cursor to the start of the next row, scrolling the screen up at the last row.
    pub fn new_line(&mut self)
        requires
            old(self).wf(),
        ensures
            final(self).wf(),
            final(self)@ == state_new_line(old(self)@),
    {
        self.x = 0;
        if self.y + 1 < BUFFER_HEIGHT {
            self.y = self.y + 1;
        } else {
            let ghost before = self.buffer.chars@;
            let mut row: usize = 1;
            while row < BUFFER_HEIGHT
                invariant
                    1 <= row <= BUFFER_HEIGHT,
                    self.x == 0,
                    self.y == old(self).y,
                    self.color_code == old(self).color_code,
                    before == old(self).buffer.chars@,
                    self.buffer.chars@.len() == BUFFER_CELLS,
                    forall|i: int|
                        0 <= i < BUFFER_CELLS ==> #[trigger] self.buffer.chars@[i] == if i
                            < cell_index(row - 1, 0) {
                            before[i + BUFFER_WIDTH]
                        } else {
                            before[i]
                        },
                decreases BUFFER_HEIGHT - row,
            {
                let mut col: usize = 0;
                while col < BUFFER_WIDTH
                    invariant
                        1 <= row < BUFFER_HEIGHT,
                        col <= BUFFER_WIDTH,
                        self.x == 0,
                        self.y == old(self).y,
                        self.color_code == old(self).color_code,
                        before == old(self).buffer.chars@,
                        self.buffer.chars@.len() == BUFFER_CELLS,
                        forall|i: int|
                            0 <= i < BUFFER_CELLS ==> #[trigger] self.buffer.chars@[i] == if i
                                < cell_index(row - 1, col as int) {
                                before[i + BUFFER_WIDTH]
                            } else {
                                before[i]
                            },
                    decreases BUFFER_WIDTH - col,
                {
                    let character = self.buffer.chars[row * BUFFER_WIDTH + col];
                    self.buffer.chars.set((row - 1) * BUFFER_WIDTH + col, character);
                    col = col + 1;
                }
                row = row + 1;
            }
            self.clear_row(BUFFER_HEIGHT - 1);
            assert(self.buffer.chars@ =~= scrolled(before, self.color_code));
        }
    }

    /// Writes one byte: a line feed breaks the line, any other byte is stored under the
    /// cursor, after a line break if the row is full.
    pub fn write_byte(&mut self, byte: u8)
        requires
            old(self).wf(),
        ensures
            final(self).wf(),
            final(self)@ == state_write_byte(old(self)@, byte),
    {
        if byte == 0x0au8 {
            self.new_line();
        } else {
            if self.x >= BUFFER_WIDTH {
                self.new_line();
            }
            let color_code = self.color_code;
            self.buffer.chars.set(
                self.y * BUFFER_WIDTH + self.x,
                ScreenChar { character: byte, color_code },
            );
            self.x = self.x + 1;
        }
    }

    /// Erases the cell before the cursor and moves the cursor onto it; does nothing at
    /// the start of a row.
    pub fn backspace(&mut self)
        requires
            old(self).wf(),
        ensures
            final(self).wf(),
            final(self)@ == state_backspace(old(self)@),
    {
        if self.x > 0 {
            self.x = self.x - 1;
            let blank = ScreenChar { character: 0x20u8, color_code: self.color_code };
            self.buffer.chars.set(self.y * BUFFER_WIDTH + self.x, blank);
        }
    }

    /// Writes a byte string, showing each byte that is neither printable ASCII nor a
    /// line feed as the block 0xfe.
    pub fn write_bytes(&mut self, bytes: &[u8])
        requires
            old(self).wf(),
        ensures
            final(self).wf(),
            final(self)@ == state_write_bytes(old(self)@, bytes@),
    {
        let ghost start = self@;
        let mut i: usize = 0;
        while i < bytes.len()
            invariant
                i <= bytes@.len(),
                self.wf(),
                self@ == state_write_bytes(start, bytes@.take(i as int)),
            decreases bytes@.len() - i,
        {
            let byte = bytes[i];
            proof {
                let next = bytes@.take(i as int + 1);
                assert(next.drop_last() =~= bytes@.take(i as int));
                assert(next.last() == byte);
            }
            if (0x20u8 <= byte && byte <= 0x7eu8) || byte == 0x0au8 {
                self.write_byte(byte);
            } else {
                self.write_byte(0xfe);
            }
            i = i + 1;
        }
        assert(bytes@.take(bytes@.len() as int) =~= bytes@);
    }

    /// Writes a string byte by byte as `write_bytes` does with its UTF-8 encoding.
    pub fn write_string(&mut self, s: &str)
        requires
            old(self).wf(),
        ensures
            final(self).wf(),
            final(self)@ == state_write_bytes(old(self)@, s.spec_bytes()),
    {
        self.write_bytes(s.as_bytes());
    }
}

/// A byte the writer may leave on the screen: printable ASCII or the block 0xfe.
pub open spec fn displayable(byte: u8) -> bool {
    (0x20u8 <= byte && byte <= 0x7eu8) || byte == 0xfeu8
}

/// Every cell holds a displayable byte in the given colour.
pub open spec fn clean_screen(cells: Seq<ScreenChar>, color_code: ColorCode) -> bool {
    forall|i: int|
        0 <= i < cells.len() ==> displayable(#[trigger] cells[i].character) && cells[i].color_code
            == color_code
}

/// Writing `a` and then `b` leaves the writer as writing `a + b` at once: text can be
/// handed to the writer in pieces of any size.
pub proof fn lemma_write_bytes_concat(s: WriterState, a: Seq<u8>, b: Seq<u8>)
    ensures
        state_write_bytes(s, a + b) == state_write_bytes(state_write_bytes(s, a), b),
    decreases b.len(),
{
    if b.len() == 0 {
        assert(a + b =~= a);
    } else {
        assert((a + b).drop_last() =~= a + b.drop_last());
        assert((a + b).last() == b.last());
        lemma_write_bytes_concat(s, a, b.drop_last());
    }
}

/// Every byte string keeps the writer's invariant: the cursor stays on the screen and
/// the screen keeps its size.
pub proof fn lemma_write_bytes_wf(s: WriterState, bytes: Seq<u8>)
    requires
        state_wf(s),
    ensures
        state_wf(state_write_bytes(s, bytes)),
    decreases bytes.len(),
{
    if bytes.len() > 0 {
        lemma_write_bytes_wf(s, bytes.drop_last());
    }
}

/// A screen of displayable bytes in the writer's colour stays so, whatever is written:
/// the writer never shows a control or non-ASCII byte, and never changes colour.
pub proof fn lemma_write_bytes_clean(s: WriterState, bytes: Seq<u8>)
    requires
        state_wf(s),
        clean_screen(s.cells, s.color_code),
    ensures
        clean_screen(state_write_bytes(s, bytes).cells, s.color_code),
        state_write_bytes(s, bytes).color_code == s.color_code,
    decreases bytes.len(),
{
    if bytes.len() > 0 {
        let t = state_write_bytes(s, bytes.drop_last());
        lemma_write_bytes_clean(s, bytes.drop_last());
        lemma_write_bytes_wf(s, bytes.drop_last());
        let b = shown_byte(bytes.last());
        let n = state_new_line(t);
        assert(clean_screen(n.cells, s.color_code));
        if b != 0x0au8 {
            let m = if t.x >= BUFFER_WIDTH { n } else { t };
            assert(clean_screen(m.cells, s.color_code));
            let r = state_put_byte(t, b);
            assert forall|i: int| 0 <= i < r.cells.len() implies displayable(
                #[trigger] r.cells[i].character,
            ) && r.cells[i].color_code == s.color_code by {
                if i != cell_index(m.y, m.x) {
                    assert(r.cells[i] == m.cells[i]);
                }
            }
        }
    }
}

/// The cells after `bytes` were stored from the cursor on along its row, in the
/// writer's colour.
pub open spec fn written_in_row(s: WriterState, bytes: Seq<u8>) -> Seq<ScreenChar> {
    Seq::new(
        s.cells.len(),
        |i: int|
            if cell_index(s.y, s.x) <= i < cell_index(s.y, s.x + bytes.len()) {
                ScreenChar { character: bytes[i - cell_index(s.y, s.x)], color_code: s.color_code }
            } else {
                s.cells[i]
            },
    )
}

/// Printable bytes that fit in the rest of the cursor's row land there in order, one per
/// cell, and the cursor ends after them; nothing else on the screen changes.
pub proof fn lemma_write_bytes_in_row(s: WriterState, bytes: Seq<u8>)
    requires
        state_wf(s),
        s.x + bytes.len() <= BUFFER_WIDTH,
        forall|k: int| 0 <= k < bytes.len() ==> 0x20u8 <= #[trigger] bytes[k] <= 0x7eu8,
    ensures
        state_write_bytes(s, bytes) == (WriterState {
            x: s.x + bytes.len(),
            cells: written_in_row(s, bytes),
            ..s
        }),
    decreases bytes.len(),
{
    if bytes.len() == 0 {
        assert(state_write_bytes(s, bytes).cells =~= written_in_row(s, bytes));
    } else {
        let p = bytes.drop_last();
        assert forall|k: int| 0 <= k < p.len() implies 0x20u8 <= #[trigger] p[k] <= 0x7eu8 by {
            assert(p[k] == bytes[k]);
        }
        lemma_write_bytes_in_row(s, p);
        assert(0x20u8 <= bytes[bytes.len() - 1] <= 0x7eu8);
        assert(state_write_bytes(s, bytes).cells =~= written_in_row(s, bytes));
    }
}

/// A one-byte string is written as that byte after the filter.
pub proof fn lemma_write_one_byte(s: WriterState, byte: u8)
    ensures
        state_write_bytes(s, seq![byte]) == state_write_byte(s, shown_byte(byte)),
{
    assert(seq![byte].drop_last() =~= Seq::<u8>::empty());
    assert(state_write_bytes(s, Seq::<u8>::empty()) == s);
}

/// Erasing right after a byte written on a row with room for it takes the cursor back
/// and leaves a blank where the byte was: nothing else on the screen changes.
pub proof fn lemma_backspace_undoes_write_byte(s: WriterState, byte: u8)
    requires
        state_wf(s),
        s.x < BUFFER_WIDTH,
        byte != 0x0au8,
    ensures
        state_backspace(state_write_byte(s, byte)) == (WriterState {
            cells: s.cells.update(cell_index(s.y, s.x), blank(s.color_code)),
            ..s
        }),
{
    assert(state_backspace(state_write_byte(s, byte)).cells =~= s.cells.update(
        cell_index(s.y, s.x),
        blank(s.color_code),
    ));
}

/// An erase keeps the writer's invariant, and a screen of displayable bytes in the
/// writer's colour stays so.
pub proof fn lemma_backspace_clean(s: WriterState)
    requires
        state_wf(s),
    ensures
        state_wf(state_backspace(s)),
        clean_screen(s.cells, s.color_code) ==> clean_screen(
            state_backspace(s).cells,
            s.color_code,
        ),
{
}

/// The palette numbers of the sixteen VGA colours.
pub proof fn lemma_color_palette()
    ensures
        color_index(Color::Black) == 0,
        color_index(Color::Blue) == 1,
        color_index(Color::Green) == 2,
        color_index(Color::Cyan) == 3,
        color_index(Color::Red) == 4,
        color_index(Color::Magenta) == 5,
        color_index(Color::Brown) == 6,
        color_index(Color::LightGary) == 7,
        color_index(Color::DarkGray) == 8,
        color_index(Color::LightBlue) == 9,
        color_index(Color::LightGreen) == 10,
        color_index(Color::LightCyan) == 11,
        color_index(Color::LightRed) == 12,
        color_index(Color::Pink) == 13,
        color_index(Color::Yellow) == 14,
        color_index(Color::White) == 15,
{
}

/// A line break goes to the start of the next row and leaves every cell as it was; on
/// the last row it instead moves every cell of rows 1 to 24 (all 80 columns) up one row,
/// blanks the last row in the writer's colour and keeps the cursor on the last row.
pub proof fn lemma_new_line_cells(s: WriterState)
    requires
        state_wf(s),
    ensures
        state_new_line(s).x == 0,
        state_new_line(s).color_code == s.color_code,
        state_new_line(s).cells.len() == s.cells.len(),
        s.y + 1 < BUFFER_HEIGHT ==> state_new_line(s).y == s.y + 1 && state_new_line(s).cells
            == s.cells,
        s.y + 1 == BUFFER_HEIGHT ==> state_new_line(s).y == s.y,
        s.y + 1 == BUFFER_HEIGHT ==> forall|r: int, c: int|
            0 <= r < BUFFER_HEIGHT - 1 && 0 <= c < BUFFER_WIDTH ==> #[trigger] state_new_line(
                s,
            ).cells[r * BUFFER_WIDTH + c] == s.cells[(r + 1) * BUFFER_WIDTH + c],
        s.y + 1 == BUFFER_HEIGHT ==> forall|c: int|
            0 <= c < BUFFER_WIDTH ==> #[trigger] state_new_line(s).cells[(BUFFER_HEIGHT - 1)
                * BUFFER_WIDTH + c] == (ScreenChar { character: 0x20u8, color_code: s.color_code }),
{
}

/// Writing a byte other than a line feed: with room in the row, the byte lands under the
/// cursor, the cursor moves one column right and nothing else changes; on a full row
/// that is not the last, the byte lands at the start of the next row; on a full last
/// row, the screen first scrolls up one row, the byte lands at the start of the last
/// row, the rest of that row is blank, and the cursor ends at column 1 of the last row.
pub proof fn lemma_write_byte_cells(s: WriterState, byte: u8)
    requires
        state_wf(s),
        byte != 0x0au8,
    ensures
        state_write_byte(s, byte).color_code == s.color_code,
        state_write_byte(s, byte).cells.len() == s.cells.len(),
        s.x < BUFFER_WIDTH ==> {
            &&& state_write_byte(s, byte).x == s.x + 1
            &&& state_write_byte(s, byte).y == s.y
            &&& state_write_byte(s, byte).cells[s.y * BUFFER_WIDTH + s.x] == (ScreenChar {
                character: byte,
                color_code: s.color_code,
            })
            &&& forall|i: int|
                0 <= i < s.cells.len() && i != s.y * BUFFER_WIDTH + s.x ==> #[trigger] state_write_byte(
                    s,
                    byte,
                ).cells[i] == s.cells[i]
        },
        s.x == BUFFER_WIDTH && s.y + 1 < BUFFER_HEIGHT ==> {
            &&& state_write_byte(s, byte).x == 1
            &&& state_write_byte(s, byte).y == s.y + 1
            &&& state_write_byte(s, byte).cells[(s.y + 1) * BUFFER_WIDTH] == (ScreenChar {
                character: byte,
                color_code: s.color_code,
            })
            &&& forall|i: int|
                0 <= i < s.cells.len() && i != (s.y + 1) * BUFFER_WIDTH ==> #[trigger] state_write_byte(
                    s,
                    byte,
                ).cells[i] == s.cells[i]
        },
        s.x == BUFFER_WIDTH && s.y + 1 == BUFFER_HEIGHT ==> {
            &&& state_write_byte(s, byte).x == 1
            &&& state_write_byte(s, byte).y == BUFFER_HEIGHT - 1
            &&& forall|r: int, c: int|
                0 <= r < BUFFER_HEIGHT - 1 && 0 <= c < BUFFER_WIDTH ==> #[trigger] state_write_byte(
                    s,
                    byte,
                ).cells[r * BUFFER_WIDTH + c] == s.cells[(r + 1) * BUFFER_WIDTH + c]
            &&& state_write_byte(s, byte).cells[(BUFFER_HEIGHT - 1) * BUFFER_WIDTH] == (ScreenChar {
                character: byte,
                color_code: s.color_code,
            })
            &&& forall|c: int|
                1 <= c < BUFFER_WIDTH ==> #[trigger] state_write_byte(s, byte).cells[(BUFFER_HEIGHT
                    - 1) * BUFFER_WIDTH + c] == (ScreenChar {
                    character: 0x20u8,
                    color_code: s.color_code,
                })
        },
{
    lemma_new_line_cells(s);
}

/// The filter of `write_string`: printable ASCII (0x20 to 0x7e) and the line feed are
/// written as they are, and every other byte as the block 0xfe.
pub proof fn lemma_write_one_byte_filter(s: WriterState, byte: u8)
    ensures
        (0x20u8 <= byte && byte <= 0x7eu8) || byte == 0x0au8 ==> state_write_bytes(s, seq![byte])
            == state_write_byte(s, byte),
        !((0x20u8 <= byte && byte <= 0x7eu8) || byte == 0x0au8) ==> state_write_bytes(
            s,
            seq![byte],
        ) == state_write_byte(s, 0xfeu8),
{
    lemma_write_one_byte(s, byte);
}

/// An erase with the cursor past column 0 blanks the cell left of the cursor in the
/// writer's colour, moves the cursor onto it and changes nothing else; at column 0 it
/// changes nothing.
pub proof fn lemma_backspace_cells(s: WriterState)
    requires
        state_wf(s),
    ensures
        s.x == 0 ==> state_backspace(s) == s,
        s.x > 0 ==> {
            &&& state_backspace(s).x == s.x - 1
            &&& state_backspace(s).y == s.y
            &&& state_backspace(s).color_code == s.color_code
            &&& state_backspace(s).cells[s.y * BUFFER_WIDTH + s.x - 1] == (ScreenChar {
                character: 0x20u8,
                color_code: s.color_code,
            })
            &&& forall|i: int|
                0 <= i < s.cells.len() && i != s.y * BUFFER_WIDTH + s.x - 1 ==> #[trigger] state_backspace(
                    s,
                ).cells[i] == s.cells[i]
        },
{
}

/// Writes already formatted text, as the `print!` family does with its arguments.
pub fn _print(writer: &mut Writer, s: &str)
    requires
        old(writer).wf(),
    ensures
        final(writer).wf(),
        final(writer)@ == state_write_bytes(old(writer)@, s.spec_bytes()),
{
    writer.write_string(s);
}

} // verus!
