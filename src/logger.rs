//! The text-mode console: an 80 x 25 grid of VGA cells written line by line,
//! scrolling when full, and the level-tagged log lines written to it.
use vstd::prelude::*;
use vstd::string::StrSliceExecFns;

verus! {

pub const VGA_WIDTH: usize = 80;
pub const VGA_HEIGHT: usize = 25;
pub const VGA_CELLS: usize = 2000;
/// Light grey on black.
pub const DEFAULT_COLOR: u8 = 0x07;
/// A blank cell in the default color.
pub const BLANK_CELL: u16 = 0x0700;
pub const NEWLINE: char = '\n';

#[derive(Clone, Copy, Debug, PartialEq, Eq, Structural)]
pub enum LogLevel {
    Info,
    Warning,
    Error,
}

/// The cursor column, the cursor row and the cells of a screen.
pub type Screen = (nat, nat, Seq<u16>);

/// The cell showing `c` in `color`: the color in the high byte, or-ed with
/// the low 16 bits of the character's code point.
pub open spec fn cell(c: char, color: u8) -> u16 {
    ((color as u16) << 8u16) | (((c as u32) % 0x1_0000) as u16)
}

/// The cells moved up one row, the last row blank.
pub open spec fn scrolled(cells: Seq<u16>) -> Seq<u16> {
    Seq::new(
        VGA_CELLS as nat,
        |i: int|
            if i < (VGA_HEIGHT - 1) * VGA_WIDTH {
                cells[i + VGA_WIDTH]
            } else {
                BLANK_CELL
            },
    )
}

/// Moves to the start of the next row, scrolling when past the last one.
pub open spec fn line_feed(s: Screen) -> Screen {
    if s.1 + 1 >= VGA_HEIGHT {
        (0, (VGA_HEIGHT - 1) as nat, scrolled(s.2))
    } else {
        (0, s.1 + 1, s.2)
    }
}

/// Writes one character: a newline feeds a line; any other character fills
/// the cell at the cursor, wrapping first when the row is full.
pub open spec fn put(s: Screen, c: char, color: u8) -> Screen {
    if c == NEWLINE {
        line_feed(s)
    } else {
        let t = if s.0 >= VGA_WIDTH {
            line_feed(s)
        } else {
            s
        };
        (t.0 + 1, t.1, t.2.update(t.1 * VGA_WIDTH + t.0, cell(c, color)))
    }
}

/// Writes the characters of `text` in order, one cell each.
pub open spec fn put_all(s: Screen, text: Seq<char>, color: u8) -> Screen
    decreases text.len(),
{
    if text.len() == 0 {
        s
    } else {
        put(put_all(s, text.drop_last(), color), text.last(), color)
    }
}

/// The tag that starts a log line.
pub open spec fn prefix_chars(level: LogLevel) -> Seq<char> {
    match level {
        LogLevel::Info => "[INFO] "@,
        LogLevel::Warning => "[WARN] "@,
        LogLevel::Error => "[ERROR] "@,
    }
}

pub fn level_prefix(level: LogLevel) -> (r: &'static str)
    ensures
        r@ == prefix_chars(level),
{
    match level {
        LogLevel::Info => "[INFO] ",
        LogLevel::Warning => "[WARN] ",
        LogLevel::Error => "[ERROR] ",
    }
}

/// The text console over a buffer of VGA cells.
pub struct VgaWriter {
    pub column: usize,
    pub row: usize,
    pub buffer: Vec<u16>,
}

impl VgaWriter {
    pub open spec fn view(&self) -> Screen {
        (self.column as nat, self.row as nat, self.buffer@)
    }

    pub open spec fn wf(&self) -> bool {
        &&& self.buffer@.len() == VGA_CELLS
        &&& self.row < VGA_HEIGHT
        &&& self.column <= VGA_WIDTH
    }

    /// A blank screen with the cursor at the top left.
    pub fn new() -> (r: VgaWriter)
        ensures
            r.wf(),
            r.view() == (0nat, 0nat, Seq::new(VGA_CELLS as nat, |i: int| BLANK_CELL)),
    {
        let mut buffer: Vec<u16> = Vec::new();
        let mut i: usize = 0;
        while i < VGA_CELLS
            invariant
                i <= VGA_CELLS,
                buffer@ =~= Seq::new(i as nat, |j: int| BLANK_CELL),
            decreases VGA_CELLS - i,
        {
            buffer.push(BLANK_CELL);
            i = i + 1;
        }
        VgaWriter { column: 0, row: 0, buffer }
    }

    pub fn scroll(&mut self)
        requires
            old(self).wf(),
        ensures
            final(self).wf(),
            final(self).view() == (old(self).column as nat, (VGA_HEIGHT - 1) as nat, scrolled(old(self).buffer@)),
    {
        let last_row: usize = (VGA_HEIGHT - 1) * VGA_WIDTH;
        let mut i: usize = 0;
        while i < last_row
            invariant
                i <= last_row,
                last_row == 1920,
                self.buffer@.len() == VGA_CELLS,
                forall|j: int| 0 <= j < i ==> self.buffer@[j] == old(self).buffer@[j + VGA_WIDTH],
                forall|j: int| i <= j < VGA_CELLS ==> self.buffer@[j] == old(self).buffer@[j],
                self.row == old(self).row,
                self.column == old(self).column,
            decreases last_row - i,
        {
            let v = self.buffer[i + VGA_WIDTH];
            self.buffer.set(i, v);
            i = i + 1;
        }
        while i < VGA_CELLS
            invariant
                last_row <= i <= VGA_CELLS,
                last_row == 1920,
                self.buffer@.len() == VGA_CELLS,
                forall|j: int| 0 <= j < last_row ==> self.buffer@[j] == old(self).buffer@[j + VGA_WIDTH],
                forall|j: int| last_row <= j < i ==> self.buffer@[j] == BLANK_CELL,
                self.row == old(self).row,
                self.column == old(self).column,
            decreases VGA_CELLS - i,
        {
            self.buffer.set(i, BLANK_CELL);
            i = i + 1;
        }
        self.row = VGA_HEIGHT - 1;
        assert(self.buffer@ =~= scrolled(old(self).buffer@));
    }

    pub fn new_line(&mut self)
        requires
            old(self).wf(),
        ensures
            final(self).wf(),
            final(self).view() == line_feed(old(self).view()),
    {
        self.column = 0;
        if self.row + 1 >= VGA_HEIGHT {
            self.scroll();
        } else {
            self.row = self.row + 1;
        }
    }

    pub fn write_char(&mut self, c: char, color: u8)
        requires
            old(self).wf(),
        ensures
            final(self).wf(),
            final(self).view() == put(old(self).view(), c, color),
    {
        if c == NEWLINE {
            self.new_line();
            return;
        }
        if self.column >= VGA_WIDTH {
            self.new_line();
        }
        let offset = self.row * VGA_WIDTH + self.column;
        let code = c as u32;
        let low = (code & 0xFFFF) as u16;
        assert(code & 0xFFFF == code % 0x1_0000) by (bit_vector);
        self.buffer.set(offset, ((color as u16) << 8u16) | low);
        self.column = self.column + 1;
    }

    /// Writes each character of `s` in the default color, one cell each.
    pub fn write_str(&mut self, s: &str)
        requires
            old(self).wf(),
        ensures
            final(self).wf(),
            final(self).view() == put_all(old(self).view(), s@, DEFAULT_COLOR),
    {
        let n = s.unicode_len();
        let mut i: usize = 0;
        while i < n
            invariant
                n == s@.len(),
                i <= n,
                self.wf(),
                self.view() == put_all(old(self).view(), s@.take(i as int), DEFAULT_COLOR),
            decreases n - i,
        {
            assert(s@.take(i + 1).drop_last() =~= s@.take(i as int));
            let c = s.get_char(i);
            self.write_char(c, DEFAULT_COLOR);
            i = i + 1;
        }
        assert(s@.take(i as int) =~= s@);
    }
}

/// The console after a log line of `text` at `level`: its tag, then the text.
pub open spec fn printed(s: Screen, text: Seq<char>, level: LogLevel) -> Screen {
    put_all(put_all(s, prefix_chars(level), DEFAULT_COLOR), text, DEFAULT_COLOR)
}

/// Writes `text` to the console after the tag of `level`.
pub fn _print(vga: &mut VgaWriter, text: &str, level: LogLevel)
    requires
        old(vga).wf(),
    ensures
        final(vga).wf(),
        final(vga).view() == printed(old(vga).view(), text@, level),
{
    vga.write_str(level_prefix(level));
    vga.write_str(text);
}

/// Writes `message` as one log line: the tag of `level`, the message, a newline.
pub fn log(vga: &mut VgaWriter, message: &str, level: LogLevel)
    requires
        old(vga).wf(),
    ensures
        final(vga).wf(),
        final(vga).view() == put(printed(old(vga).view(), message@, level), NEWLINE, DEFAULT_COLOR),
{
    _print(vga, message, level);
    vga.write_char(NEWLINE, DEFAULT_COLOR);
}

/// Announces the console with an informational line.
pub fn init(vga: &mut VgaWriter)
    requires
        old(vga).wf(),
    ensures
        final(vga).wf(),
        final(vga).view() == put(
            printed(old(vga).view(), "Logger initialized (serial @ 0x3F8, VGA @ 0xb8000)"@, LogLevel::Info),
            NEWLINE,
            DEFAULT_COLOR,
        ),
{
    log(vga, "Logger initialized (serial @ 0x3F8, VGA @ 0xb8000)", LogLevel::Info);
}

} // verus!
