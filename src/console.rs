//! The diagnostic console: a text grid of (character, colour) cells with a
//! cursor, written line by line.
//!
//! The grid is kept in memory here; copying it into the console memory
//! window is left to the caller.

use vstd::prelude::*;
use vstd::string::StrSliceExecFns;

verus! {

pub const VGA_WIDTH: u8 = 80;

pub const VGA_HEIGHT: u8 = 25;

/// Number of cells in the grid.
pub const VGA_CELLS: usize = 2000;

/// The largest row the cursor can hold.
pub const MAX_ROW: u8 = 255;

/// The largest column the cursor can hold.
pub const MAX_COLUMN: u8 = 255;

/// The byte shown for a character outside printable ASCII: a small box.
pub const REPLACEMENT_BYTE: u8 = 0xFE;

/// The byte of a blank cell.
pub const BLANK_BYTE: u8 = 0x20;

#[derive(Clone, Copy, Debug, PartialEq, Eq, Structural)]
pub enum Color {
    Black,
    Blue,
    Green,
    Cyan,
    Red,
    Magenta,
    Brown,
    LightGray,
    DarkGray,
    LightBlue,
    LightGreen,
    LightCyan,
    LightRed,
    LightMagenta,
    LightBrown,
    White,
}

impl Color {
    pub open spec fn spec_code(self) -> u8 {
        match self {
            Color::Black => 0,
            Color::Blue => 1,
            Color::Green => 2,
            Color::Cyan => 3,
            Color::Red => 4,
            Color::Magenta => 5,
            Color::Brown => 6,
            Color::LightGray => 7,
            Color::DarkGray => 8,
            Color::LightBlue => 9,
            Color::LightGreen => 10,
            Color::LightCyan => 11,
            Color::LightRed => 12,
            Color::LightMagenta => 13,
            Color::LightBrown => 14,
            Color::White => 15,
        }
    }

    /// The attribute byte of the colour in the console memory window.
    pub fn code(self) -> (r: u8)
        ensures
            r == self.spec_code(),
            r < 16,
    {
        match self {
            Color::Black => 0,
            Color::Blue => 1,
            Color::Green => 2,
            Color::Cyan => 3,
            Color::Red => 4,
            Color::Magenta => 5,
            Color::Brown => 6,
            Color::LightGray => 7,
            Color::DarkGray => 8,
            Color::LightBlue => 9,
            Color::LightGreen => 10,
            Color::LightCyan => 11,
            Color::LightRed => 12,
            Color::LightMagenta => 13,
            Color::LightBrown => 14,
            Color::White => 15,
        }
    }
}

/// One cell of the grid.
#[derive(Clone, Copy, Debug, PartialEq, Eq, Structural)]
pub struct Char {
    pub character: u8,
    pub color: Color,
}

impl Char {
    pub fn new(character: u8, color: Color) -> (r: Self)
        ensures
            r == (Char { character, color }),
    {
        Char { character, color }
    }
}

/// A position on the grid.
#[derive(Clone, Copy, Debug, PartialEq, Eq, Structural)]
pub struct Coord {
    pub row: u8,
    pub column: u8,
}

/// What a console shows: the cursor and the cells, row by row.
pub ghost struct Screen {
    pub row: int,
    pub column: int,
    pub cells: Seq<Char>,
}

pub open spec fn blank() -> Char {
    Char { character: BLANK_BYTE, color: Color::White }
}

pub open spec fn blank_screen() -> Screen {
    Screen { row: 0, column: 0, cells: Seq::new(VGA_CELLS as nat, |i: int| blank()) }
}

/// Puts `c` at the cursor and moves the cursor right. A cursor past the
/// last column first moves to the start of the next row, and one past the
/// last row to the top.
pub open spec fn screen_put(s: Screen, c: Char) -> Screen {
    let row1 = if s.column >= VGA_WIDTH { s.row + 1 } else { s.row };
    let col1 = if s.column >= VGA_WIDTH { 0 } else { s.column };
    let row2 = if row1 >= VGA_HEIGHT { 0 } else { row1 };
    Screen { row: row2, column: col1 + 1, cells: s.cells.update(row2 * VGA_WIDTH + col1, c) }
}

/// The cell that shows character `ch`: printable ASCII as itself, anything
/// else as a box, both in white.
pub open spec fn cell_for(ch: char) -> Char {
    if 0x20 <= (ch as u32) <= 0x7F {
        Char { character: ch as u8, color: Color::White }
    } else {
        Char { character: REPLACEMENT_BYTE, color: Color::White }
    }
}

/// Writes one character. NUL is ignored; a cursor below the last row first
/// clears the screen; newline goes to the start of the next row, carriage
/// return to the start of the row, and a tab four columns right. A column
/// past the right edge is left as it is until the next character is put;
/// only a tab that would leave the range of a `u8` stops at 255.
pub open spec fn screen_write_char(s: Screen, ch: char) -> Screen {
    if ch == '\0' {
        s
    } else {
        let t = if s.row >= VGA_HEIGHT { blank_screen() } else { s };
        if ch == '\n' {
            Screen { row: t.row + 1, column: 0, ..t }
        } else if ch == '\r' {
            Screen { column: 0, ..t }
        } else if ch == '\t' {
            Screen { column: if t.column + 4 > MAX_COLUMN { MAX_COLUMN as int } else { t.column + 4 }, ..t }
        } else {
            screen_put(t, cell_for(ch))
        }
    }
}

/// Writes the characters of `text` one after another.
pub open spec fn screen_write_str(s: Screen, text: Seq<char>) -> Screen
    decreases text.len(),
{
    if text.len() == 0 {
        s
    } else {
        screen_write_char(screen_write_str(s, text.drop_last()), text.last())
    }
}

/// Writing `a` and then `b` is writing `a + b`.
pub proof fn lemma_write_str_concat(s: Screen, a: Seq<char>, b: Seq<char>)
    ensures
        screen_write_str(screen_write_str(s, a), b) == screen_write_str(s, a + b),
    decreases b.len(),
{
    if b.len() == 0 {
        assert(a + b =~= a);
    } else {
        lemma_write_str_concat(s, a, b.drop_last());
        assert((a + b).drop_last() =~= a + b.drop_last());
        assert((a + b).last() == b.last());
    }
}

/// Writing a one-character text is writing that character.
pub proof fn lemma_write_str_single(s: Screen, c: char)
    ensures
        screen_write_str(s, seq![c]) == screen_write_char(s, c),
{
    assert(seq![c].drop_last() =~= Seq::<char>::empty());
    assert(screen_write_str(s, Seq::<char>::empty()) == s);
}

/// The upper-case hexadecimal digit of `d`.
pub open spec fn hex_digit(d: nat) -> char {
    seq!['0', '1', '2', '3', '4', '5', '6', '7', '8', '9', 'A', 'B', 'C', 'D', 'E', 'F'][d as int]
}

fn hex_char(d: u64) -> (c: char)
    requires
        d < 16,
    ensures
        c == hex_digit(d as nat),
{
    match d {
        0 => '0',
        1 => '1',
        2 => '2',
        3 => '3',
        4 => '4',
        5 => '5',
        6 => '6',
        7 => '7',
        8 => '8',
        9 => '9',
        10 => 'A',
        11 => 'B',
        12 => 'C',
        13 => 'D',
        14 => 'E',
        _ => 'F',
    }
}

/// `v` in upper-case hexadecimal, without leading zeros.
pub open spec fn hex_text(v: nat) -> Seq<char>
    decreases v,
{
    if v < 16 {
        seq![hex_digit(v)]
    } else {
        hex_text(v / 16).push(hex_digit(v % 16))
    }
}

/// `text` followed by a newline.
pub open spec fn line(text: Seq<char>) -> Seq<char> {
    text.push('\n')
}

/// Position of the cell at `row`, `column` in the row-by-row grid.
fn cell_index(row: u8, column: u8) -> (r: usize)
    requires
        row < VGA_HEIGHT,
        column < VGA_WIDTH,
    ensures
        r == row * VGA_WIDTH + column,
        r < VGA_CELLS,
{
    assert(row * 80 + column < 2000) by (nonlinear_arith)
        requires
            row < 25,
            column < 80,
    ;
    (row as usize) * (VGA_WIDTH as usize) + (column as usize)
}

/// The console's state: the cursor and a copy of the grid.
pub struct VgaState {
    pub curr_coord: Coord,
    pub vga_buffer: Vec<Char>,
}

impl View for VgaState {
    type V = Screen;

    open spec fn view(&self) -> Screen {
        Screen { row: self.curr_coord.row as int, column: self.curr_coord.column as int, cells: self.vga_buffer@ }
    }
}

impl VgaState {
    /// The grid has its full size. The cursor may stand below the grid or
    /// past its right edge: the next character put moves it back.
    pub open spec fn wf(&self) -> bool {
        self.vga_buffer@.len() == VGA_CELLS
    }

    /// A blank console with the cursor at the top left.
    pub fn new() -> (r: Self)
        ensures
            r.wf(),
            r@ == blank_screen(),
    {
        let mut cells: Vec<Char> = Vec::new();
        let mut i: usize = 0;
        while i < VGA_CELLS
            invariant
                i <= VGA_CELLS,
                cells@ == Seq::new(i as nat, |k: int| blank()),
            decreases VGA_CELLS - i,
        {
            cells.push(Char::new(BLANK_BYTE, Color::White));
            i = i + 1;
        }
        let r = VgaState { curr_coord: Coord { row: 0, column: 0 }, vga_buffer: cells };
        assert(r@.cells =~= blank_screen().cells);
        r
    }

    /// Blanks every cell and puts the cursor at the top left.
    pub fn clear_screen(&mut self)
        requires
            old(self).wf(),
        ensures
            final(self).wf(),
            final(self)@ == blank_screen(),
    {
        let mut row: u8 = 0;
        while row < VGA_HEIGHT
            invariant
                row <= VGA_HEIGHT,
                self.vga_buffer@.len() == VGA_CELLS,
                forall|k: int| 0 <= k < row * VGA_WIDTH ==> #[trigger] self.vga_buffer@[k] == blank(),
            decreases VGA_HEIGHT - row,
        {
            let mut col: u8 = 0;
            while col < VGA_WIDTH
                invariant
                    row < VGA_HEIGHT,
                    col <= VGA_WIDTH,
                    self.vga_buffer@.len() == VGA_CELLS,
                    forall|k: int| 0 <= k < row * VGA_WIDTH + col ==> #[trigger] self.vga_buffer@[k] == blank(),
                decreases VGA_WIDTH - col,
            {
                let index = cell_index(row, col);
                self.vga_buffer.set(index, Char::new(BLANK_BYTE, Color::White));
                col = col + 1;
            }
            row = row + 1;
        }
        self.curr_coord.row = 0;
        self.curr_coord.column = 0;
        assert(self@.cells =~= blank_screen().cells);
    }

    /// Puts `char` at the cursor and advances the cursor.
    pub fn put_char(&mut self, char: Char)
        requires
            old(self).wf(),
            old(self).curr_coord.row < VGA_HEIGHT,
        ensures
            final(self).wf(),
            final(self)@ == screen_put(old(self)@, char),
    {
        if self.curr_coord.column >= VGA_WIDTH {
            self.curr_coord.column = 0;
            self.curr_coord.row = self.curr_coord.row + 1;
        }
        if self.curr_coord.row >= VGA_HEIGHT {
            self.curr_coord.row = 0;
        }
        let index = cell_index(self.curr_coord.row, self.curr_coord.column);
        self.vga_buffer.set(index, char);
        self.curr_coord.column = self.curr_coord.column + 1;
    }

    /// Moves the cursor to the start of the next row.
    pub fn new_line(&mut self)
        requires
            old(self).wf(),
            old(self).curr_coord.row < MAX_ROW,
        ensures
            final(self).wf(),
            final(self)@ == (Screen { row: old(self)@.row + 1, column: 0, ..old(self)@ }),
    {
        self.curr_coord.column = 0;
        self.curr_coord.row = self.curr_coord.row + 1;
    }

    /// Writes one character; see `screen_write_char`.
    pub fn write_char(&mut self, char: char)
        requires
            old(self).wf(),
        ensures
            final(self).wf(),
            final(self)@ == screen_write_char(old(self)@, char),
    {
        if char == '\0' {
            return;
        }
        if self.curr_coord.row >= VGA_HEIGHT {
            self.clear_screen();
        }
        if char == '\n' {
            self.new_line();
        } else if char == '\r' {
            self.curr_coord.column = 0;
        } else if char == '\t' {
            if self.curr_coord.column > MAX_COLUMN - 4 {
                self.curr_coord.column = MAX_COLUMN;
            } else {
                self.curr_coord.column = self.curr_coord.column + 4;
            }
        } else {
            let code = char as u32;
            let cell = if 0x20 <= code && code <= 0x7F {
                Char::new(code as u8, Color::White)
            } else {
                Char::new(REPLACEMENT_BYTE, Color::White)
            };
            self.put_char(cell);
        }
    }

    /// Writes the characters of `s` in order.
    pub fn write_str(&mut self, s: &str)
        requires
            old(self).wf(),
        ensures
            final(self).wf(),
            final(self)@ == screen_write_str(old(self)@, s@),
    {
        let len = s.unicode_len();
        let mut i: usize = 0;
        while i < len
            invariant
                i <= len,
                len == s@.len(),
                self.wf(),
                self@ == screen_write_str(old(self)@, s@.subrange(0, i as int)),
            decreases len - i,
        {
            let c = s.get_char(i);
            self.write_char(c);
            assert(s@.subrange(0, i + 1).drop_last() =~= s@.subrange(0, i as int));
            i = i + 1;
        }
        assert(s@.subrange(0, len as int) =~= s@);
    }

    /// Writes `s` and a newline.
    pub fn write_line(&mut self, s: &str)
        requires
            old(self).wf(),
        ensures
            final(self).wf(),
            final(self)@ == screen_write_str(old(self)@, line(s@)),
    {
        self.write_str(s);
        self.write_char('\n');
        assert(line(s@).drop_last() =~= s@);
    }

    /// Writes `label`, then `v` in upper-case hexadecimal, then a newline.
    pub fn write_labeled_hex(&mut self, label: &str, v: u64)
        requires
            old(self).wf(),
        ensures
            final(self).wf(),
            final(self)@ == screen_write_str(old(self)@, label@ + line(hex_text(v as nat))),
    {
        let ghost start = self@;
        self.write_str(label);
        self.write_hex(v);
        let ghost mid = self@;
        self.write_char('\n');
        proof {
            lemma_write_str_concat(start, label@, hex_text(v as nat));
            lemma_write_str_single(mid, '\n');
            lemma_write_str_concat(start, label@ + hex_text(v as nat), seq!['\n']);
            assert(label@ + hex_text(v as nat) + seq!['\n'] =~= label@ + line(hex_text(v as nat)));
        }
    }

    /// Writes `v` in upper-case hexadecimal.
    pub fn write_hex(&mut self, v: u64)
        requires
            old(self).wf(),
        ensures
            final(self).wf(),
            final(self)@ == screen_write_str(old(self)@, hex_text(v as nat)),
        decreases v,
    {
        if v >= 16 {
            self.write_hex(v / 16);
        }
        let ghost mid = self@;
        let c = hex_char(v % 16);
        self.write_char(c);
        proof {
            let t = hex_text(v as nat);
            if v >= 16 {
                assert(t.drop_last() =~= hex_text((v / 16) as nat));
            } else {
                assert(t.drop_last() =~= Seq::<char>::empty());
                assert(screen_write_str(old(self)@, t.drop_last()) == old(self)@);
            }
            assert(mid == screen_write_str(old(self)@, t.drop_last()));
            assert(t.len() > 0 && t.last() == c);
            assert(self@ == screen_write_char(mid, c));
        }
    }
}

} // verus!
