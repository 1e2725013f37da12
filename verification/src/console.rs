//! What holds of the console over whole runs of output.

use crate::vga_buffer::{
    blank, blank_row, content_end, is_printable, lemma_content_end, ColourCode, ConsoleView,
    ScreenChar, BUFFER_HEIGHT, BUFFER_WIDTH, REPLACEMENT_GLYPH,
};
use vstd::prelude::*;

verus! {

/// `count` backspace bytes.
pub open spec fn backspaces(count: nat) -> Seq<u8> {
    Seq::new(count, |i: int| 0x08u8)
}

/// Whether every byte of `bytes` is printable ASCII.
pub open spec fn all_printable(bytes: Seq<u8>) -> bool {
    forall|i: int| 0 <= i < bytes.len() ==> is_printable(#[trigger] bytes[i])
}

/// One byte of output leaves the grid's shape and the cursor's bounds intact,
/// and never changes the writer's colours.
pub proof fn lemma_write_byte_wf(v: ConsoleView, byte: u8)
    requires
        v.wf(),
    ensures
        v.write_byte(byte).wf(),
        v.write_byte(byte).colour_code == v.colour_code,
{
    lemma_content_end(v.rows[BUFFER_HEIGHT - 2]);
}

/// Any run of output leaves the grid's shape and the cursor's bounds intact,
/// and never changes the writer's colours.
pub proof fn lemma_write_bytes_wf(v: ConsoleView, bytes: Seq<u8>)
    requires
        v.wf(),
    ensures
        v.write_bytes(bytes).wf(),
        v.write_bytes(bytes).colour_code == v.colour_code,
    decreases bytes.len(),
{
    if bytes.len() > 0 {
        lemma_write_bytes_wf(v, bytes.drop_last());
        lemma_write_byte_wf(v.write_bytes(bytes.drop_last()), bytes.last());
    }
}

/// Writing one run and then another is writing the two joined.
pub proof fn lemma_write_bytes_concat(v: ConsoleView, first: Seq<u8>, second: Seq<u8>)
    ensures
        v.write_bytes(first + second) == v.write_bytes(first).write_bytes(second),
    decreases second.len(),
{
    if second.len() == 0 {
        assert(first + second =~= first);
    } else {
        lemma_write_bytes_concat(v, first, second.drop_last());
        assert((first + second).drop_last() =~= first + second.drop_last());
    }
}

/// Printable bytes that fit into what is left of the last row land there
/// side by side, from the cursor on, in the writer's colours. The cursor ends
/// behind the last of them, and nothing else on the grid changes.
pub proof fn lemma_printable_run(v: ConsoleView, bytes: Seq<u8>)
    requires
        v.wf(),
        v.column + bytes.len() <= BUFFER_WIDTH,
        all_printable(bytes),
    ensures
        v.write_bytes(bytes).wf(),
        v.write_bytes(bytes).column == v.column + bytes.len(),
        v.write_bytes(bytes).colour_code == v.colour_code,
        forall|row: int|
            0 <= row < BUFFER_HEIGHT - 1 ==> #[trigger] v.write_bytes(bytes).rows[row]
                == v.rows[row],
        forall|col: int|
            0 <= col < BUFFER_WIDTH ==> #[trigger] v.write_bytes(bytes).last_row()[col] == (if v.column
                <= col < v.column + bytes.len() {
                ScreenChar { ascii_character: bytes[col - v.column], colour_code: v.colour_code }
            } else {
                v.last_row()[col]
            }),
    decreases bytes.len(),
{
    if bytes.len() > 0 {
        let init = bytes.drop_last();
        lemma_printable_run(v, init);
        let u = v.write_bytes(init);
        assert(is_printable(bytes.last()));
        assert(v.write_bytes(bytes) == u.put(bytes.last()));
    }
}

/// A row filled from its first cell to its last, and one printable byte
/// more: the console scrolls once, so that the full row stands right above
/// the last one, and the extra byte is alone at the start of the last row.
pub proof fn lemma_wrap_after_full_row(v: ConsoleView, bytes: Seq<u8>, extra: u8)
    requires
        v.wf(),
        v.column == 0,
        bytes.len() == BUFFER_WIDTH,
        all_printable(bytes),
        is_printable(extra),
    ensures
        v.write_bytes(bytes).column == BUFFER_WIDTH,
        v.write_bytes(bytes.push(extra)) == v.write_bytes(bytes).new_line().put(extra),
        v.write_bytes(bytes.push(extra)).column == 1,
        forall|row: int|
            0 <= row < BUFFER_HEIGHT - 1 ==> #[trigger] v.write_bytes(bytes.push(extra)).rows[row]
                == v.write_bytes(bytes).rows[row + 1],
        forall|col: int|
            0 <= col < BUFFER_WIDTH ==> #[trigger] v.write_bytes(bytes.push(extra)).rows[BUFFER_HEIGHT
                - 2][col] == (ScreenChar {
                ascii_character: bytes[col],
                colour_code: v.colour_code,
            }),
        v.write_bytes(bytes.push(extra)).last_row() == blank_row(v.colour_code).update(
            0,
            ScreenChar { ascii_character: extra, colour_code: v.colour_code },
        ),
{
    lemma_printable_run(v, bytes);
    let full = v.write_bytes(bytes);
    let all = bytes.push(extra);
    assert(all.drop_last() =~= bytes);
    assert(all.last() == extra);
    assert(v.write_bytes(all) == full.write_byte(extra));
    let w = full.new_line().put(extra);
    assert forall|col: int| 0 <= col < BUFFER_WIDTH implies #[trigger] w.rows[BUFFER_HEIGHT
        - 2][col] == (ScreenChar { ascii_character: bytes[col], colour_code: v.colour_code }) by {
        assert(w.rows[BUFFER_HEIGHT - 2] == full.last_row());
    }
}

/// With the cursor behind at least one cell, a backspace moves it back by one
/// and empties the cell it then stands on; nothing else changes.
pub proof fn lemma_backspace_erases(v: ConsoleView)
    requires
        v.wf(),
        v.column > 0,
    ensures
        v.backspace().wf(),
        v.backspace().column == v.column - 1,
        v.backspace().last_row()[v.column - 1] == blank(v.colour_code),
        forall|col: int|
            0 <= col < BUFFER_WIDTH && col != v.column - 1 ==> #[trigger] v.backspace().last_row()[col]
                == v.last_row()[col],
        forall|row: int|
            0 <= row < BUFFER_HEIGHT - 1 ==> #[trigger] v.backspace().rows[row] == v.rows[row],
{
}

/// As many backspaces as there are cells before the cursor, or fewer, empty
/// that many cells before it and move it back that far; nothing else changes.
pub proof fn lemma_backspace_run(v: ConsoleView, count: nat)
    requires
        v.wf(),
        count <= v.column,
    ensures
        v.write_bytes(backspaces(count)).wf(),
        v.write_bytes(backspaces(count)).column == v.column - count,
        v.write_bytes(backspaces(count)).colour_code == v.colour_code,
        forall|row: int|
            0 <= row < BUFFER_HEIGHT - 1 ==> #[trigger] v.write_bytes(backspaces(count)).rows[row]
                == v.rows[row],
        forall|col: int|
            0 <= col < BUFFER_WIDTH ==> #[trigger] v.write_bytes(backspaces(count)).last_row()[col]
                == (if v.column - count <= col < v.column {
                blank(v.colour_code)
            } else {
                v.last_row()[col]
            }),
    decreases count,
{
    if count > 0 {
        let fewer = (count - 1) as nat;
        lemma_backspace_run(v, fewer);
        assert(backspaces(count).drop_last() =~= backspaces(fewer));
        let u = v.write_bytes(backspaces(fewer));
        assert(v.write_bytes(backspaces(count)) == u.backspace());
        lemma_backspace_erases(u);
    }
}

/// Printable bytes written onto an empty last row, and then one backspace
/// for each of them: the console is as it was, the row empty and the cursor
/// at its start.
pub proof fn lemma_backspaces_undo_row(v: ConsoleView, bytes: Seq<u8>)
    requires
        v.wf(),
        v.column == 0,
        v.last_row() == blank_row(v.colour_code),
        bytes.len() <= BUFFER_WIDTH,
        all_printable(bytes),
    ensures
        v.write_bytes(bytes).write_bytes(backspaces(bytes.len())) == v,
        v.write_bytes(bytes + backspaces(bytes.len())) == v,
{
    lemma_printable_run(v, bytes);
    let u = v.write_bytes(bytes);
    lemma_backspace_run(u, bytes.len());
    let w = u.write_bytes(backspaces(bytes.len()));
    assert(w.last_row() =~= v.last_row());
    assert(w.rows =~= v.rows);
    lemma_write_bytes_concat(v, bytes, backspaces(bytes.len()));
}

/// A backspace at the start of the row brings every row down by one: the row
/// that stood above the last one is now the last, the top row stays, and what
/// the last row held is gone. The cursor stands right behind the last cell of
/// the new last row that is not a space, or at its start where it has none.
pub proof fn lemma_backspace_restores_row_above(v: ConsoleView)
    requires
        v.wf(),
        v.column == 0,
    ensures
        v.backspace().wf(),
        v.backspace().colour_code == v.colour_code,
        v.backspace().rows[0] == v.rows[0],
        forall|row: int|
            1 <= row < BUFFER_HEIGHT ==> #[trigger] v.backspace().rows[row] == v.rows[row - 1],
        v.backspace().last_row() == v.rows[BUFFER_HEIGHT - 2],
        v.backspace().column == content_end(v.rows[BUFFER_HEIGHT - 2]),
        forall|col: int|
            v.backspace().column <= col < BUFFER_WIDTH ==> (#[trigger] v.backspace().last_row()[col]).ascii_character
                == 0x20,
        v.backspace().column > 0 ==> v.backspace().last_row()[v.backspace().column
            - 1].ascii_character != 0x20,
{
    lemma_content_end(v.rows[BUFFER_HEIGHT - 2]);
}

/// A line feed puts the cursor at the start of the row, wherever it stood,
/// and leaves the last row empty below the rows that were there.
pub proof fn lemma_newline_resets_cursor(v: ConsoleView)
    requires
        v.wf(),
    ensures
        v.write_byte(0x0a).wf(),
        v.write_byte(0x0a).column == 0,
        v.write_byte(0x0a).last_row() == blank_row(v.colour_code),
        forall|row: int|
            0 <= row < BUFFER_HEIGHT - 1 ==> #[trigger] v.write_byte(0x0a).rows[row] == v.rows[row
                + 1],
{
}

/// A byte that is neither printable nor a line feed nor a backspace is
/// written as the replacement glyph.
pub proof fn lemma_unprintable_is_replaced(v: ConsoleView, byte: u8)
    requires
        !is_printable(byte),
        byte != 0x0a,
        byte != 0x08,
    ensures
        v.write_byte(byte) == v.put(REPLACEMENT_GLYPH),
{
}

/// Whether `cell` is one that the writer makes: in the colours
/// `colour_code`, and showing a printable byte or the replacement glyph.
pub open spec fn is_clean_cell(cell: ScreenChar, colour_code: ColourCode) -> bool {
    cell.colour_code == colour_code && (is_printable(cell.ascii_character) || cell.ascii_character
        == REPLACEMENT_GLYPH)
}

/// Whether every cell of the console is one that the writer makes.
pub open spec fn is_clean(v: ConsoleView) -> bool {
    forall|row: int, col: int|
        0 <= row < BUFFER_HEIGHT && 0 <= col < BUFFER_WIDTH ==> is_clean_cell(
            #[trigger] v.rows[row][col],
            v.colour_code,
        )
}

/// The empty console holds only cells that the writer makes.
pub proof fn lemma_cleared_is_clean(colour_code: ColourCode)
    ensures
        ConsoleView::cleared(colour_code).wf(),
        is_clean(ConsoleView::cleared(colour_code)),
{
}

/// Whatever byte is written, the console goes on holding only cells that the
/// writer makes: no input gets a byte onto the grid that the display cannot
/// show, or a cell in other colours.
pub proof fn lemma_write_byte_keeps_clean(v: ConsoleView, byte: u8)
    requires
        v.wf(),
        is_clean(v),
    ensures
        is_clean(v.write_byte(byte)),
{
    let w = v.write_byte(byte);
    lemma_write_byte_wf(v, byte);
    let scrolled = v.new_line();
    assert(is_clean(scrolled)) by {
        assert forall|row: int, col: int|
            0 <= row < BUFFER_HEIGHT && 0 <= col < BUFFER_WIDTH implies is_clean_cell(
            #[trigger] scrolled.rows[row][col],
            scrolled.colour_code,
        ) by {
            if row < BUFFER_HEIGHT - 1 {
                assert(scrolled.rows[row][col] == v.rows[row + 1][col]);
            }
        }
    }
    assert forall|row: int, col: int|
        0 <= row < BUFFER_HEIGHT && 0 <= col < BUFFER_WIDTH implies is_clean_cell(
        #[trigger] w.rows[row][col],
        w.colour_code,
    ) by {
        if byte == 0x0a {
        } else if byte == 0x08 {
            if v.column > 0 {
                assert(w.rows[row][col] == blank(v.colour_code) || w.rows[row][col]
                    == v.rows[row][col]);
            } else if row == 0 {
                assert(w.rows[row][col] == v.rows[0][col]);
            } else {
                assert(w.rows[row][col] == v.rows[row - 1][col]);
            }
        } else {
            let at = if v.column >= BUFFER_WIDTH {
                scrolled
            } else {
                v
            };
            let shown = if is_printable(byte) {
                byte
            } else {
                REPLACEMENT_GLYPH
            };
            assert(w == v.put(shown));
            assert(is_clean_cell(at.rows[row][col], at.colour_code));
            assert(w.rows[row][col] == at.rows[row][col] || w.rows[row][col] == (ScreenChar {
                ascii_character: shown,
                colour_code: v.colour_code,
            }));
        }
    }
}

/// Whatever run of bytes is written, the console goes on holding only cells
/// that the writer makes.
pub proof fn lemma_write_bytes_keeps_clean(v: ConsoleView, bytes: Seq<u8>)
    requires
        v.wf(),
        is_clean(v),
    ensures
        is_clean(v.write_bytes(bytes)),
    decreases bytes.len(),
{
    if bytes.len() > 0 {
        lemma_write_bytes_wf(v, bytes.drop_last());
        lemma_write_bytes_keeps_clean(v, bytes.drop_last());
        lemma_write_byte_keeps_clean(v.write_bytes(bytes.drop_last()), bytes.last());
    }
}

} // verus!
