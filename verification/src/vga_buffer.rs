//! The text console: an 80 by 25 grid of coloured cells with a cursor that
//! lives on the last row.

use volatile::Volatile;
use vstd::prelude::*;
use vstd::string::*;

verus! {

/// Number of rows of the grid.
pub const BUFFER_HEIGHT: usize = 25;

/// Number of cells in a row.
pub const BUFFER_WIDTH: usize = 80;

/// Glyph that stands in for a byte the console cannot show.
pub const REPLACEMENT_GLYPH: u8 = 0xfe;

/// The sixteen colours of the text mode.
#[derive(Debug, Clone, Copy, PartialEq, Eq, Structural)]
pub enum Colour {
    Black,
    Blue,
    Green,
    Cyan,
    Red,
    Magenta,
    Brown,
    LightGray,
    DarkGray,
    LightBlue,
    LightGreen,
    LightCyan,
    LightRed,
    Pink,
    Yellow,
    White,
}

impl Colour {
    /// The four-bit number that the display hardware knows the colour by.
    pub open spec fn spec_code(self) -> u8 {
        match self {
            Colour::Black => 0,
            Colour::Blue => 1,
            Colour::Green => 2,
            Colour::Cyan => 3,
            Colour::Red => 4,
            Colour::Magenta => 5,
            Colour::Brown => 6,
            Colour::LightGray => 7,
            Colour::DarkGray => 8,
            Colour::LightBlue => 9,
            Colour::LightGreen => 10,
            Colour::LightCyan => 11,
            Colour::LightRed => 12,
            Colour::Pink => 13,
            Colour::Yellow => 14,
            Colour::White => 15,
        }
    }

    #[verifier::when_used_as_spec(spec_code)]
    pub fn code(self) -> (code: u8)
        ensures
            code == self.spec_code(),
            code < 16,
    {
        match self {
            Colour::Black => 0,
            Colour::Blue => 1,
            Colour::Green => 2,
            Colour::Cyan => 3,
            Colour::Red => 4,
            Colour::Magenta => 5,
            Colour::Brown => 6,
            Colour::LightGray => 7,
            Colour::DarkGray => 8,
            Colour::LightBlue => 9,
            Colour::LightGreen => 10,
            Colour::LightCyan => 11,
            Colour::LightRed => 12,
            Colour::Pink => 13,
            Colour::Yellow => 14,
            Colour::White => 15,
        }
    }
}

/// A foreground and a background colour packed into one attribute byte:
/// the background in the high four bits, the foreground in the low four.
#[derive(Debug, Clone, Copy, PartialEq, Eq, Structural)]
pub struct ColourCode(pub u8);

impl ColourCode {
    /// The attribute byte of a colour pair.
    pub open spec fn spec_new(foreground: Colour, background: Colour) -> ColourCode {
        ColourCode((background.spec_code() * 16 + foreground.spec_code()) as u8)
    }

    #[verifier::when_used_as_spec(spec_new)]
    pub fn new(foreground: Colour, background: Colour) -> (code: ColourCode)
        ensures
            code == Self::spec_new(foreground, background),
    {
        let high: u8 = background.code();
        let low: u8 = foreground.code();
        assert((high << 4u8 | low) == high * 16 + low) by (bit_vector)
            requires
                high < 16,
                low < 16,
        ;
        ColourCode(high << 4u8 | low)
    }
}

/// One cell of the grid.
#[derive(Debug, Clone, Copy, PartialEq, Eq, Structural)]
pub struct ScreenChar {
    pub ascii_character: u8,
    pub colour_code: ColourCode,
}

/// The empty cell in a given colour.
pub open spec fn blank(colour_code: ColourCode) -> ScreenChar {
    ScreenChar { ascii_character: 0x20, colour_code }
}

/// A row of empty cells.
pub open spec fn blank_row(colour_code: ColourCode) -> Seq<ScreenChar> {
    Seq::new(BUFFER_WIDTH as nat, |col: int| blank(colour_code))
}

/// Whether `rows` has the grid's shape.
pub open spec fn is_grid(rows: Seq<Seq<ScreenChar>>) -> bool {
    &&& rows.len() == BUFFER_HEIGHT
    &&& forall|row: int| 0 <= row < BUFFER_HEIGHT ==> (#[trigger] rows[row]).len() == BUFFER_WIDTH
}

/// One past the last cell of `row` that holds anything but a space; 0 where
/// there is no such cell.
pub open spec fn content_end(row: Seq<ScreenChar>) -> nat
    decreases row.len(),
{
    if row.len() == 0 {
        0
    } else if row.last().ascii_character != 0x20 {
        row.len()
    } else {
        content_end(row.drop_last())
    }
}

/// `content_end` is the least column from which on the row is all spaces.
pub proof fn lemma_content_end(row: Seq<ScreenChar>)
    ensures
        content_end(row) <= row.len(),
        forall|col: int| content_end(row) <= col < row.len() ==> row[col].ascii_character == 0x20,
        content_end(row) > 0 ==> row[content_end(row) - 1].ascii_character != 0x20,
    decreases row.len(),
{
    if row.len() > 0 && row.last().ascii_character == 0x20 {
        let shorter = row.drop_last();
        lemma_content_end(shorter);
        assert forall|col: int| content_end(row) <= col < row.len() implies row[col].ascii_character
            == 0x20 by {
            if col < shorter.len() {
                assert(row[col] == shorter[col]);
            }
        }
        if content_end(row) > 0 {
            assert(row[content_end(row) - 1] == shorter[content_end(row) - 1]);
        }
    }
}

impl ScreenChar {
    /// The cell as the display keeps it: the character in the low byte, the
    /// attribute in the high byte.
    pub open spec fn spec_pack(self) -> u16 {
        (self.colour_code.0 * 256 + self.ascii_character) as u16
    }

    /// The cell that the display shows for `word`.
    pub open spec fn spec_unpack(word: u16) -> ScreenChar {
        ScreenChar {
            ascii_character: (word % 256) as u8,
            colour_code: ColourCode((word / 256) as u8),
        }
    }

    #[verifier::when_used_as_spec(spec_pack)]
    pub fn pack(self) -> (word: u16)
        ensures
            word == self.spec_pack(),
            Self::spec_unpack(word) == self,
    {
        let high: u16 = self.colour_code.0 as u16;
        let low: u16 = self.ascii_character as u16;
        high * 256 + low
    }

    #[verifier::when_used_as_spec(spec_unpack)]
    pub fn unpack(word: u16) -> (cell: ScreenChar)
        ensures
            cell == Self::spec_unpack(word),
            cell.spec_pack() == word,
    {
        ScreenChar {
            ascii_character: (word % 256) as u8,
            colour_code: ColourCode((word / 256) as u8),
        }
    }
}

/// `volatile::Volatile`: a value that is read and written in place, by
/// accesses that the compiler neither drops nor reorders.
#[verifier::external_type_specification]
#[verifier::external_body]
#[verifier::reject_recursive_types(T)]
pub struct ExVolatile<T: Copy>(volatile::Volatile<T>);

/// The word that a display cell holds.
pub uninterp spec fn stored(cell: Volatile<u16>) -> u16;

/// `Volatile::new`: a cell that holds `word`.
#[verifier::external_body]
fn cell_new(word: u16) -> (cell: Volatile<u16>)
    ensures
        stored(cell) == word,
{
    Volatile::new(word)
}

/// `Volatile::read`: the word that the cell holds. The cell is memory that
/// only this kernel writes, so a read gives what was written last.
#[verifier::external_body]
fn cell_read(cell: &Volatile<u16>) -> (word: u16)
    ensures
        word == stored(*cell),
{
    cell.read()
}

/// `Volatile::write`: the cell holds `word` from now on.
#[verifier::external_body]
fn cell_write(cell: &mut Volatile<u16>, word: u16)
    ensures
        stored(*final(cell)) == word,
{
    cell.write(word)
}

/// The cells of the display, row by row.
pub struct Buffer {
    chars: Vec<Volatile<u16>>,
}

impl View for Buffer {
    type V = Seq<Seq<ScreenChar>>;

    closed spec fn view(&self) -> Seq<Seq<ScreenChar>> {
        Seq::new(
            BUFFER_HEIGHT as nat,
            |row: int|
                Seq::new(
                    BUFFER_WIDTH as nat,
                    |col: int| ScreenChar::spec_unpack(stored(self.chars@[row * 80 + col])),
                ),
        )
    }
}

impl Buffer {
    /// There is a cell for every place of the grid.
    pub closed spec fn complete(&self) -> bool {
        self.chars@.len() == 2000
    }

    /// Every cell is there, and the view has the grid's shape.
    pub open spec fn wf(&self) -> bool {
        self.complete() && is_grid(self@)
    }

    /// A grid that holds `cell` everywhere.
    pub fn filled(cell: ScreenChar) -> (buffer: Buffer)
        ensures
            buffer.wf(),
            forall|row: int, col: int|
                0 <= row < BUFFER_HEIGHT && 0 <= col < BUFFER_WIDTH ==> #[trigger] buffer@[row][col]
                    == cell,
    {
        let word: u16 = cell.pack();
        let mut chars: Vec<Volatile<u16>> = Vec::new();
        let mut i: usize = 0;
        while i < 2000
            invariant
                i <= 2000,
                chars@.len() == i,
                ScreenChar::spec_unpack(word) == cell,
                forall|k: int| 0 <= k < i ==> stored(#[trigger] chars@[k]) == word,
            decreases 2000 - i,
        {
            chars.push(cell_new(word));
            i += 1;
        }
        Buffer { chars }
    }

    /// The cell at `row` and `col`.
    pub fn read(&self, row: usize, col: usize) -> (cell: ScreenChar)
        requires
            self.wf(),
            row < BUFFER_HEIGHT,
            col < BUFFER_WIDTH,
        ensures
            cell == self@[row as int][col as int],
    {
        ScreenChar::unpack(cell_read(&self.chars[row * 80 + col]))
    }

    /// Puts `cell` at `row` and `col`; every other cell stays as it is.
    pub fn write(&mut self, row: usize, col: usize, cell: ScreenChar)
        requires
            old(self).wf(),
            row < BUFFER_HEIGHT,
            col < BUFFER_WIDTH,
        ensures
            final(self).wf(),
            final(self)@ == old(self)@.update(
                row as int,
                old(self)@[row as int].update(col as int, cell),
            ),
    {
        cell_write(&mut self.chars[row * 80 + col], cell.pack());
        assert(self@ =~~= old(self)@.update(
            row as int,
            old(self)@[row as int].update(col as int, cell),
        ));
    }
}

/// What the console shows and where its cursor stands. The cursor's row is
/// always the last one.
pub struct ConsoleView {
    pub rows: Seq<Seq<ScreenChar>>,
    pub column: nat,
    pub colour_code: ColourCode,
}

/// Whether `byte` is printable ASCII.
pub open spec fn is_printable(byte: u8) -> bool {
    0x20 <= byte <= 0x7e
}

impl ConsoleView {
    pub open spec fn wf(self) -> bool {
        is_grid(self.rows) && self.column <= BUFFER_WIDTH
    }

    /// The empty console.
    pub open spec fn cleared(colour_code: ColourCode) -> ConsoleView {
        ConsoleView {
            rows: Seq::new(BUFFER_HEIGHT as nat, |row: int| blank_row(colour_code)),
            column: 0,
            colour_code,
        }
    }

    /// The row that the cursor is on.
    pub open spec fn last_row(self) -> Seq<ScreenChar> {
        self.rows[BUFFER_HEIGHT - 1]
    }

    /// The same console with `cell` in the last row at `col`.
    pub open spec fn with_cell(self, col: int, cell: ScreenChar) -> ConsoleView {
        ConsoleView {
            rows: self.rows.update(BUFFER_HEIGHT - 1, self.last_row().update(col, cell)),
            ..self
        }
    }

    /// Scroll: every row moves up by one, the top row is lost, the last row
    /// is empty and the cursor is at its start.
    pub open spec fn new_line(self) -> ConsoleView {
        ConsoleView {
            rows: self.rows.subrange(1, BUFFER_HEIGHT as int).push(blank_row(self.colour_code)),
            column: 0,
            colour_code: self.colour_code,
        }
    }

    /// `byte` goes into the cell under the cursor, after a scroll where the
    /// last row is full, and the cursor moves on by one.
    pub open spec fn put(self, byte: u8) -> ConsoleView {
        let at = if self.column >= BUFFER_WIDTH {
            self.new_line()
        } else {
            self
        };
        ConsoleView {
            column: at.column + 1,
            ..at.with_cell(
                at.column as int,
                ScreenChar { ascii_character: byte, colour_code: self.colour_code },
            )
        }
    }

    /// Every row but the last moves down by one; the top row stays as well.
    pub open spec fn rows_moved_down(self) -> Seq<Seq<ScreenChar>> {
        Seq::new(
            BUFFER_HEIGHT as nat,
            |row: int|
                if row == 0 {
                    self.rows[0]
                } else {
                    self.rows[row - 1]
                },
        )
    }

    /// Erase the cell before the cursor; at the start of the row, bring the
    /// row above back and put the cursor behind what it holds.
    pub open spec fn backspace(self) -> ConsoleView {
        if self.column > 0 {
            ConsoleView {
                column: (self.column - 1) as nat,
                ..self.with_cell(self.column - 1, blank(self.colour_code))
            }
        } else {
            ConsoleView {
                rows: self.rows_moved_down(),
                column: content_end(self.rows[BUFFER_HEIGHT - 2]),
                colour_code: self.colour_code,
            }
        }
    }

    /// The console after one byte of output.
    pub open spec fn write_byte(self, byte: u8) -> ConsoleView {
        if byte == 0x0a {
            self.new_line()
        } else if byte == 0x08 {
            self.backspace()
        } else if is_printable(byte) {
            self.put(byte)
        } else {
            self.put(REPLACEMENT_GLYPH)
        }
    }

    /// The console after the bytes of `bytes`, first to last.
    pub open spec fn write_bytes(self, bytes: Seq<u8>) -> ConsoleView
        decreases bytes.len(),
    {
        if bytes.len() == 0 {
            self
        } else {
            self.write_bytes(bytes.drop_last()).write_byte(bytes.last())
        }
    }
}

/// Writes to the grid at a cursor that stays on the last row.
pub struct Writer {
    column_pos: usize,
    colour_code: ColourCode,
    buffer: Buffer,
}

impl View for Writer {
    type V = ConsoleView;

    closed spec fn view(&self) -> ConsoleView {
        ConsoleView {
            rows: self.buffer@,
            column: self.column_pos as nat,
            colour_code: self.colour_code,
        }
    }
}

impl Writer {
    /// The writer's grid has a cell for every place.
    pub closed spec fn complete(&self) -> bool {
        self.buffer.complete()
    }

    /// The grid is whole and the cursor is within the row or just behind it.
    pub open spec fn wf(&self) -> bool {
        self.complete() && self@.wf()
    }

    /// An empty console that writes red on black.
    pub fn new() -> (writer: Self)
        ensures
            writer.wf(),
            writer@ == ConsoleView::cleared(ColourCode::spec_new(Colour::Red, Colour::Black)),
    {
        let colour_code = ColourCode::new(Colour::Red, Colour::Black);
        let mut writer = Self {
            column_pos: 0,
            colour_code,
            buffer: Buffer::filled(ScreenChar { ascii_character: 0x20, colour_code }),
        };
        writer.clear();
        assert(writer@.rows =~~= ConsoleView::cleared(colour_code).rows);
        writer
    }

    /// The column of the cursor.
    pub fn column(&self) -> (column: usize)
        requires
            self.wf(),
        ensures
            column == self@.column,
            column <= BUFFER_WIDTH,
    {
        self.column_pos
    }

    /// The attribute that this writer gives to every cell it writes.
    pub fn colour_code(&self) -> (colour_code: ColourCode)
        ensures
            colour_code == self@.colour_code,
    {
        self.colour_code
    }

    /// The cell at `row` and `col`.
    pub fn cell(&self, row: usize, col: usize) -> (cell: ScreenChar)
        requires
            self.wf(),
            row < BUFFER_HEIGHT,
            col < BUFFER_WIDTH,
        ensures
            cell == self@.rows[row as int][col as int],
    {
        self.buffer.read(row, col)
    }

    /// One byte of output: a line feed scrolls, a backspace erases, a
    /// printable byte is shown, and any other byte is shown as the
    /// replacement glyph.
    pub fn write_byte(&mut self, byte: u8)
        requires
            old(self).wf(),
        ensures
            final(self).wf(),
            final(self)@ == old(self)@.write_byte(byte),
    {
        if byte == 0x0a {
            self.new_line();
        } else if byte == 0x08 {
            self.backspace();
        } else if 0x20 <= byte && byte <= 0x7e {
            self.put(byte);
        } else {
            self.put(REPLACEMENT_GLYPH);
        }
    }

    /// The bytes of `s`, one after the other.
    pub fn write_str(&mut self, s: &str)
        requires
            old(self).wf(),
        ensures
            final(self).wf(),
            final(self)@ == old(self)@.write_bytes(s.spec_bytes()),
    {
        let bytes = s.as_bytes();
        let ghost start = self@;
        let mut i: usize = 0;
        while i < bytes.len()
            invariant
                i <= bytes.len(),
                self.wf(),
                self@ == start.write_bytes(bytes@.take(i as int)),
            decreases bytes.len() - i,
        {
            self.write_byte(bytes[i]);
            proof {
                assert(bytes@.take(i + 1).drop_last() =~= bytes@.take(i as int));
            }
            i += 1;
        }
        proof {
            assert(bytes@.take(bytes.len() as int) =~= bytes@);
        }
    }

    /// Shows `byte` as it is under the cursor, on a fresh row where the last
    /// one is full.
    pub fn put(&mut self, byte: u8)
        requires
            old(self).wf(),
        ensures
            final(self).wf(),
            final(self)@ == old(self)@.put(byte),
    {
        if self.column_pos >= BUFFER_WIDTH {
            self.new_line();
        }
        let row: usize = BUFFER_HEIGHT - 1;
        self.buffer.write(
            row,
            self.column_pos,
            ScreenChar { ascii_character: byte, colour_code: self.colour_code },
        );
        self.column_pos += 1;
    }

    /// Scrolls by one row.
    pub fn new_line(&mut self)
        requires
            old(self).wf(),
        ensures
            final(self).wf(),
            final(self)@ == old(self)@.new_line(),
    {
        let ghost start = self.buffer@;
        let mut row: usize = 1;
        while row < BUFFER_HEIGHT
            invariant
                1 <= row <= BUFFER_HEIGHT,
                self.wf(),
                is_grid(start),
                self.column_pos == old(self).column_pos,
                self.colour_code == old(self).colour_code,
                forall|r: int, c: int|
                    0 <= r < row - 1 && 0 <= c < BUFFER_WIDTH ==> #[trigger] self.buffer@[r][c]
                        == start[r + 1][c],
                forall|r: int, c: int|
                    row - 1 <= r < BUFFER_HEIGHT && 0 <= c < BUFFER_WIDTH
                        ==> #[trigger] self.buffer@[r][c] == start[r][c],
            decreases BUFFER_HEIGHT - row,
        {
            let mut col: usize = 0;
            while col < BUFFER_WIDTH
                invariant
                    1 <= row < BUFFER_HEIGHT,
                    col <= BUFFER_WIDTH,
                    self.wf(),
                    is_grid(start),
                    self.column_pos == old(self).column_pos,
                    self.colour_code == old(self).colour_code,
                    forall|r: int, c: int|
                        0 <= r < row - 1 && 0 <= c < BUFFER_WIDTH ==> #[trigger] self.buffer@[r][c]
                            == start[r + 1][c],
                    forall|c: int|
                        0 <= c < col ==> #[trigger] self.buffer@[row - 1][c] == start[row as int][c],
                    forall|c: int|
                        col <= c < BUFFER_WIDTH ==> #[trigger] self.buffer@[row - 1][c]
                            == start[row - 1][c],
                    forall|r: int, c: int|
                        row <= r < BUFFER_HEIGHT && 0 <= c < BUFFER_WIDTH
                            ==> #[trigger] self.buffer@[r][c] == start[r][c],
                decreases BUFFER_WIDTH - col,
            {
                let chr = self.buffer.read(row, col);
                self.buffer.write(row - 1, col, chr);
                col += 1;
            }
            row += 1;
        }
        self.clear_row(BUFFER_HEIGHT - 1);
        self.column_pos = 0;
        assert(self@.rows =~~= old(self)@.new_line().rows);
    }

    /// Erases the cell before the cursor, or brings the row above back.
    pub fn backspace(&mut self)
        requires
            old(self).wf(),
        ensures
            final(self).wf(),
            final(self)@ == old(self)@.backspace(),
    {
        if self.column_pos > 0 {
            self.buffer.write(
                BUFFER_HEIGHT - 1,
                self.column_pos - 1,
                ScreenChar { ascii_character: 0x20, colour_code: self.colour_code },
            );
            self.column_pos -= 1;
        } else {
            self.copy_all_rows_down(BUFFER_HEIGHT - 1);
            assert(self@.rows =~~= old(self)@.rows_moved_down());
            self.column_pos = self.last_non_empty_char(BUFFER_HEIGHT - 1);
            proof {
                lemma_content_end(self@.last_row());
            }
        }
    }

    /// Copies each of the rows `0` to `to - 1` into the row below it, the
    /// lowest first.
    fn copy_all_rows_down(&mut self, to: usize)
        requires
            old(self).wf(),
            to < BUFFER_HEIGHT,
        ensures
            final(self).wf(),
            final(self)@.column == old(self)@.column,
            final(self)@.colour_code == old(self)@.colour_code,
            forall|r: int|
                1 <= r <= to ==> #[trigger] final(self)@.rows[r] == old(self)@.rows[r - 1],
            forall|r: int|
                (r == 0 || to < r < BUFFER_HEIGHT) ==> #[trigger] final(self)@.rows[r] == old(
                    self,
                )@.rows[r],
    {
        let ghost start = self.buffer@;
        let mut row: usize = to;
        while row > 0
            invariant
                row <= to < BUFFER_HEIGHT,
                self.wf(),
                is_grid(start),
                self.column_pos == old(self).column_pos,
                self.colour_code == old(self).colour_code,
                forall|r: int| row < r <= to ==> #[trigger] self.buffer@[r] == start[r - 1],
                forall|r: int|
                    (0 <= r <= row || to < r < BUFFER_HEIGHT) ==> #[trigger] self.buffer@[r]
                        == start[r],
            decreases row,
        {
            let mut col: usize = 0;
            while col < BUFFER_WIDTH
                invariant
                    0 < row <= to < BUFFER_HEIGHT,
                    col <= BUFFER_WIDTH,
                    self.wf(),
                    is_grid(start),
                    self.column_pos == old(self).column_pos,
                    self.colour_code == old(self).colour_code,
                    forall|r: int| row < r <= to ==> #[trigger] self.buffer@[r] == start[r - 1],
                    forall|r: int|
                        (0 <= r < row || to < r < BUFFER_HEIGHT) ==> #[trigger] self.buffer@[r]
                            == start[r],
                    forall|c: int|
                        0 <= c < col ==> #[trigger] self.buffer@[row as int][c] == start[row - 1][c],
                decreases BUFFER_WIDTH - col,
            {
                let chr = self.buffer.read(row - 1, col);
                self.buffer.write(row, col, chr);
                col += 1;
            }
            assert(self.buffer@[row as int] =~= start[row - 1]);
            row -= 1;
        }
    }

    /// One past the last cell of `row` that is not a space.
    fn last_non_empty_char(&self, row: usize) -> (end: usize)
        requires
            self.wf(),
            row < BUFFER_HEIGHT,
        ensures
            end == content_end(self@.rows[row as int]),
    {
        let ghost cells = self.buffer@[row as int];
        let mut col: usize = BUFFER_WIDTH;
        assert(cells.take(col as int) =~= cells);
        while col > 0
            invariant
                col <= BUFFER_WIDTH,
                self.wf(),
                row < BUFFER_HEIGHT,
                cells == self.buffer@[row as int],
                content_end(cells) == content_end(cells.take(col as int)),
            decreases col,
        {
            if self.buffer.read(row, col - 1).ascii_character != 0x20 {
                return col;
            }
            assert(cells.take(col as int).drop_last() =~= cells.take(col - 1));
            col -= 1;
        }
        0
    }

    /// Empties `row`.
    fn clear_row(&mut self, row: usize)
        requires
            old(self).wf(),
            row < BUFFER_HEIGHT,
        ensures
            final(self).wf(),
            final(self)@ == (ConsoleView {
                rows: old(self)@.rows.update(row as int, blank_row(old(self)@.colour_code)),
                ..old(self)@
            }),
    {
        let ghost start = self.buffer@;
        let mut col: usize = 0;
        while col < BUFFER_WIDTH
            invariant
                col <= BUFFER_WIDTH,
                row < BUFFER_HEIGHT,
                self.wf(),
                self.column_pos == old(self).column_pos,
                self.colour_code == old(self).colour_code,
                forall|r: int|
                    0 <= r < BUFFER_HEIGHT && r != row ==> #[trigger] self.buffer@[r] == start[r],
                forall|c: int|
                    0 <= c < col ==> #[trigger] self.buffer@[row as int][c] == blank(
                        self.colour_code,
                    ),
            decreases BUFFER_WIDTH - col,
        {
            self.buffer.write(
                row,
                col,
                ScreenChar { ascii_character: 0x20, colour_code: self.colour_code },
            );
            col += 1;
        }
        assert(self.buffer@[row as int] =~= blank_row(self.colour_code));
        assert(self@.rows =~= old(self)@.rows.update(row as int, blank_row(self.colour_code)));
    }

    /// Empties the whole grid.
    fn clear(&mut self)
        requires
            old(self).wf(),
        ensures
            final(self).wf(),
            final(self)@ == (ConsoleView {
                rows: ConsoleView::cleared(old(self)@.colour_code).rows,
                ..old(self)@
            }),
    {
        let mut row: usize = 0;
        while row < BUFFER_HEIGHT
            invariant
                row <= BUFFER_HEIGHT,
                self.wf(),
                self.column_pos == old(self).column_pos,
                self.colour_code == old(self).colour_code,
                forall|r: int| 0 <= r < row ==> #[trigger] self.buffer@[r] == blank_row(self.colour_code),
            decreases BUFFER_HEIGHT - row,
        {
            self.clear_row(row);
            row += 1;
        }
        assert(self@.rows =~= ConsoleView::cleared(self.colour_code).rows);
    }
}

impl Default for Writer {
    fn default() -> (writer: Self)
        ensures
            writer.wf(),
            writer@ == ConsoleView::cleared(ColourCode::spec_new(Colour::Red, Colour::Black)),
    {
        Self::new()
    }
}

} // verus!
