//! The text console writer: tracks the cursor column on the bottom row of
//! an 80x25 character grid and turns bytes into grid operations, which the
//! display driver carries out.
use vstd::prelude::*;
use vstd::string::StringSliceAdditionalSpecFns;

verus! {

pub const BUFFER_HEIGHT: usize = 25;

pub const BUFFER_WIDTH: usize = 80;

/// The row that text is written on; earlier lines scroll up from it.
pub const BOTTOM_ROW: usize = 24;

/// The glyph shown for a byte outside printable ASCII.
pub const REPLACEMENT_GLYPH: u8 = 0xfe;

pub const LINE_FEED: u8 = 10;

pub const SPACE: u8 = 0x20;

/// One operation on the character grid.
#[derive(Clone, Copy, Debug, PartialEq, Eq, Structural)]
pub enum GridOp {
    /// Write `glyph` into the cell at `col`, `row`.
    Put { col: usize, row: usize, glyph: u8 },
    /// Scroll every line up by one and blank the bottom row.
    NewLine,
    /// Place the hardware cursor at `col`, `row`.
    Cursor { col: usize, row: usize },
}

/// The operations that writing `byte` at column `col` takes, and the column
/// after it.
pub open spec fn byte_ops(col: nat, byte: u8) -> (Seq<GridOp>, nat) {
    if byte == LINE_FEED {
        (seq![GridOp::NewLine], 0)
    } else if col >= BUFFER_WIDTH {
        (seq![GridOp::NewLine, GridOp::Put { col: 0, row: BOTTOM_ROW, glyph: byte }], 1)
    } else {
        (seq![GridOp::Put { col: col as usize, row: BOTTOM_ROW, glyph: byte }], col + 1)
    }
}

/// The glyph shown for a byte of text: printable ASCII and line breaks
/// stand for themselves, anything else for the replacement glyph.
pub open spec fn shown(byte: u8) -> u8 {
    if (0x20 <= byte && byte <= 0x7e) || byte == LINE_FEED {
        byte
    } else {
        REPLACEMENT_GLYPH
    }
}

/// The operations that writing the bytes `bs` from column `col` takes, and
/// the column after them.
pub open spec fn text_ops(col: nat, bs: Seq<u8>) -> (Seq<GridOp>, nat)
    decreases bs.len(),
{
    if bs.len() == 0 {
        (Seq::empty(), col)
    } else {
        let before = text_ops(col, bs.drop_last());
        let last = byte_ops(before.1, shown(bs.last()));
        (before.0 + last.0, last.1)
    }
}

/// The cursor position on the bottom row of the grid.
pub struct Writer {
    pub column_position: usize,
}

impl Writer {
    pub open spec fn wf(&self) -> bool {
        self.column_position <= BUFFER_WIDTH
    }

    pub fn new(column_pos: usize) -> (w: Writer)
        requires
            column_pos <= BUFFER_WIDTH,
        ensures
            w.wf(),
            w.column_position == column_pos,
    {
        Writer { column_position: column_pos }
    }

    fn emit_byte(&mut self, byte: u8, ops: &mut Vec<GridOp>)
        requires
            old(self).wf(),
        ensures
            final(self).wf(),
            final(ops)@ == old(ops)@ + byte_ops(old(self).column_position as nat, byte).0,
            final(self).column_position == byte_ops(old(self).column_position as nat, byte).1,
    {
        if byte == LINE_FEED {
            ops.push(GridOp::NewLine);
            self.column_position = 0;
            assert(final(ops)@ =~= old(ops)@ + seq![GridOp::NewLine]);
        } else {
            if self.column_position >= BUFFER_WIDTH {
                ops.push(GridOp::NewLine);
                self.column_position = 0;
            }
            ops.push(GridOp::Put { col: self.column_position, row: BOTTOM_ROW, glyph: byte });
            self.column_position = self.column_position + 1;
            assert(final(ops)@ =~= old(ops)@ + byte_ops(old(self).column_position as nat, byte).0);
        }
    }

    /// Writes one byte: a line break starts a new line; another byte is
    /// put at the cursor, after starting a new line when the row is full.
    pub fn write_byte(&mut self, byte: u8) -> (ops: Vec<GridOp>)
        requires
            old(self).wf(),
        ensures
            final(self).wf(),
            ops@ == byte_ops(old(self).column_position as nat, byte).0,
            final(self).column_position == byte_ops(old(self).column_position as nat, byte).1,
    {
        let mut ops: Vec<GridOp> = Vec::new();
        self.emit_byte(byte, &mut ops);
        assert(ops@ =~= byte_ops(old(self).column_position as nat, byte).0);
        ops
    }

    /// Places the hardware cursor after the last written cell.
    pub fn draw_cursor(&self) -> (op: GridOp)
        ensures
            op == (GridOp::Cursor { col: self.column_position, row: BOTTOM_ROW }),
    {
        GridOp::Cursor { col: self.column_position, row: BOTTOM_ROW }
    }

    /// Erases the cell before the cursor and moves the cursor back onto it;
    /// at the start of the row only the cursor is redrawn.
    pub fn delete_char(&mut self) -> (ops: Vec<GridOp>)
        requires
            old(self).wf(),
        ensures
            final(self).wf(),
            old(self).column_position > 0 ==> final(self).column_position
                == old(self).column_position - 1,
            old(self).column_position > 0 ==> ops@ == seq![
                GridOp::Put { col: (old(self).column_position - 1) as usize, row: BOTTOM_ROW, glyph: SPACE },
                GridOp::Cursor { col: (old(self).column_position - 1) as usize, row: BOTTOM_ROW },
            ],
            old(self).column_position == 0 ==> final(self).column_position == 0,
            old(self).column_position == 0 ==> ops@ == seq![GridOp::Cursor { col: 0, row: BOTTOM_ROW }],
    {
        let mut ops: Vec<GridOp> = Vec::new();
        if self.column_position > 0 {
            self.column_position = self.column_position - 1;
            self.emit_byte(SPACE, &mut ops);
            self.column_position = self.column_position - 1;
        }
        ops.push(self.draw_cursor());
        ops
    }

    /// Writes a string byte by byte; bytes outside printable ASCII, other
    /// than line breaks, are shown as the replacement glyph.
    pub fn write_string(&mut self, s: &str) -> (ops: Vec<GridOp>)
        requires
            old(self).wf(),
        ensures
            final(self).wf(),
            ops@ == text_ops(old(self).column_position as nat, s.spec_bytes()).0,
            final(self).column_position == text_ops(old(self).column_position as nat, s.spec_bytes()).1,
    {
        let bytes = s.as_bytes();
        let col0 = Ghost(self.column_position as nat);
        let mut ops: Vec<GridOp> = Vec::new();
        let mut i: usize = 0;
        while i < bytes.len()
            invariant
                bytes@ == s.spec_bytes(),
                i <= bytes@.len(),
                self.wf(),
                ops@ == text_ops(col0@, bytes@.take(i as int)).0,
                self.column_position == text_ops(col0@, bytes@.take(i as int)).1,
            decreases bytes@.len() - i,
        {
            let byte = bytes[i];
            let glyph = if (0x20 <= byte && byte <= 0x7e) || byte == LINE_FEED {
                byte
            } else {
                REPLACEMENT_GLYPH
            };
            assert(bytes@.take(i + 1).drop_last() =~= bytes@.take(i as int));
            self.emit_byte(glyph, &mut ops);
            i = i + 1;
        }
        assert(bytes@.take(i as int) =~= bytes@);
        ops
    }
}

} // verus!
