//! VGA text-mode screen and serial console.
//!
//! The writer keeps an image of the 80x25 text buffer (a character byte and
//! a colour byte per cell); the caller copies it to the hardware buffer and
//! sends the serial text to the UART.
use vstd::prelude::*;
use crate::nexis_kernel::drivers::{Driver, OutputDriver};
use crate::text::{push_str, join_strs, concat_views, utf8_to_string, views};

verus! {

/// Rows of the text screen.
pub const BUFFER_HEIGHT: usize = 25;
/// Columns of the text screen.
pub const BUFFER_WIDTH: usize = 80;
/// Bytes of the text buffer: two per cell.
pub const BUFFER_BYTES: usize = 4000;
/// Physical address of the hardware text buffer.
pub const VGA_BUFFER_ADDR: usize = 0xb8000;

/// The sixteen VGA text colours.
#[derive(Debug, Clone, Copy, PartialEq, Eq, Structural)]
pub enum Color {
    Black,
    Blue,
    Green,
    Cyan,
    Red,
    Magenta,
    Brown,
    LightGray,
    DarkGray,
    LightBlue,
    LightGreen,
    LightCyan,
    LightRed,
    Pink,
    Yellow,
    White,
}

/// Hardware number of a colour.
pub open spec fn color_value(c: Color) -> u8 {
    match c {
        Color::Black => 0,
        Color::Blue => 1,
        Color::Green => 2,
        Color::Cyan => 3,
        Color::Red => 4,
        Color::Magenta => 5,
        Color::Brown => 6,
        Color::LightGray => 7,
        Color::DarkGray => 8,
        Color::LightBlue => 9,
        Color::LightGreen => 10,
        Color::LightCyan => 11,
        Color::LightRed => 12,
        Color::Pink => 13,
        Color::Yellow => 14,
        Color::White => 15,
    }
}

/// Hardware number of a colour.
pub fn color_number(c: Color) -> (r: u8)
    ensures
        r == color_value(c),
{
    match c {
        Color::Black => 0,
        Color::Blue => 1,
        Color::Green => 2,
        Color::Cyan => 3,
        Color::Red => 4,
        Color::Magenta => 5,
        Color::Brown => 6,
        Color::LightGray => 7,
        Color::DarkGray => 8,
        Color::LightBlue => 9,
        Color::LightGreen => 10,
        Color::LightCyan => 11,
        Color::LightRed => 12,
        Color::Pink => 13,
        Color::Yellow => 14,
        Color::White => 15,
    }
}

/// Attribute byte: background in the high nibble, foreground in the low one.
#[derive(Debug, Clone, Copy, PartialEq, Eq, Structural)]
pub struct ColorCode(pub u8);

impl ColorCode {
    /// The attribute for a foreground and background colour.
    pub fn new(foreground: Color, background: Color) -> (r: ColorCode)
        ensures
            r.0 == color_value(background) * 16 + color_value(foreground),
    {
        let b = color_number(background);
        let f = color_number(foreground);
        proof {
            assert(b < 16 && f < 16 ==> ((b << 4u8) | f) == b * 16 + f) by (bit_vector);
        }
        ColorCode((b << 4u8) | f)
    }
}

/// Byte offset of a cell.
pub open spec fn cell_offset(row: int, col: int) -> int {
    (row * 80 + col) * 2
}

/// The buffer with one cell written.
pub open spec fn put_cell(buf: Seq<u8>, row: int, col: int, ch: u8, color: u8) -> Seq<u8> {
    buf.update(cell_offset(row, col), ch).update(cell_offset(row, col) + 1, color)
}

/// The buffer scrolled up one line, the last line blank in `color`.
pub open spec fn scrolled(buf: Seq<u8>, color: u8) -> Seq<u8> {
    Seq::new(4000, |i: int| if i < 3840 { buf[i + 160] } else if i % 2 == 0 { 32u8 } else { color })
}

/// The buffer with cells `[from, to)` of `row` blank in `color`.
pub open spec fn blank_cells(buf: Seq<u8>, row: int, from: int, to: int, color: u8) -> Seq<u8> {
    Seq::new(
        buf.len(),
        |i: int|
            if cell_offset(row, from) <= i < cell_offset(row, to) {
                if i % 2 == 0 {
                    32u8
                } else {
                    color
                }
            } else {
                buf[i]
            },
    )
}

/// A screen blank in `color`.
pub open spec fn blank_screen(color: u8) -> Seq<u8> {
    Seq::new(4000, |i: int| if i % 2 == 0 { 32u8 } else { color })
}

/// Cursor and buffer after a line break.
pub open spec fn after_new_line(row: int, buf: Seq<u8>, color: u8) -> (int, int, Seq<u8>) {
    if row + 1 < 25 {
        (0, row + 1, buf)
    } else {
        (0, row, scrolled(buf, color))
    }
}

/// Cursor and buffer after writing `c` at `(col, row)`.
pub open spec fn after_put(col: int, row: int, buf: Seq<u8>, color: u8, c: char) -> (int, int, Seq<u8>) {
    if c == '\n' {
        after_new_line(row, buf, color)
    } else if c == '\r' {
        (0, row, buf)
    } else if c == '\t' {
        let next = (col + 8) - (col + 8) % 8;
        let end = if next < 80 { next } else { 80 };
        if col < end {
            (end, row, blank_cells(buf, row, col, end, color))
        } else {
            (col, row, buf)
        }
    } else if c == '\x08' {
        if col > 0 {
            (col - 1, row, put_cell(buf, row, col - 1, 32u8, color))
        } else {
            (col, row, buf)
        }
    } else {
        let (c2, r2, b2) = if col >= 80 {
            after_new_line(row, buf, color)
        } else {
            (col, row, buf)
        };
        (c2 + 1, r2, put_cell(b2, r2, c2, c as u8, color))
    }
}

/// Cursor and buffer after writing every character of `s` in turn.
pub open spec fn after_write(col: int, row: int, buf: Seq<u8>, color: u8, s: Seq<char>) -> (int, int, Seq<u8>)
    decreases s.len(),
{
    if s.len() == 0 {
        (col, row, buf)
    } else {
        let (c1, r1, b1) = after_write(col, row, buf, color, s.drop_last());
        after_put(c1, r1, b1, color, s.last())
    }
}

/// A VGA text-mode writer.
pub struct VgaWriter {
    column: usize,
    row: usize,
    color: ColorCode,
    buffer: Vec<u8>,
    initialized: bool,
}

impl VgaWriter {
    /// Cursor column.
    pub closed spec fn col(&self) -> int {
        self.column as int
    }

    /// Cursor row.
    pub closed spec fn line(&self) -> int {
        self.row as int
    }

    /// Current attribute byte.
    pub closed spec fn attr(&self) -> u8 {
        self.color.0
    }

    /// The text buffer image.
    pub closed spec fn screen(&self) -> Seq<u8> {
        self.buffer@
    }

    /// Whether `init` has run.
    pub closed spec fn is_init(&self) -> bool {
        self.initialized
    }

    /// The cursor is on screen (the column may sit just past the last cell)
    /// and the image has every cell.
    pub closed spec fn wf(&self) -> bool {
        &&& self.buffer@.len() == BUFFER_BYTES
        &&& self.row < BUFFER_HEIGHT
        &&& self.column <= BUFFER_WIDTH
    }

    /// A writer at the top left, white on black; the image starts blank.
    pub fn new() -> (r: Self)
        ensures
            r.wf(),
            r.col() == 0 && r.line() == 0,
            r.attr() == 15,
            r.screen() == Seq::new(4000, |i: int| 0u8),
            !r.is_init(),
    {
        let buffer = vec![0u8; BUFFER_BYTES];
        let color = ColorCode::new(Color::White, Color::Black);
        VgaWriter { column: 0, row: 0, color, buffer, initialized: false }
    }

    /// Marks the writer initialised and clears the screen.
    pub fn init(&mut self) -> (r: Result<(), &'static str>)
        requires
            old(self).wf(),
        ensures
            final(self).wf(),
            r is Ok,
            final(self).is_init(),
            final(self).screen() == blank_screen(old(self).attr()),
            final(self).col() == 0 && final(self).line() == 0,
            final(self).attr() == old(self).attr(),
    {
        self.initialized = true;
        self.clear_screen();
        Ok(())
    }

    /// Sets the attribute for later characters.
    pub fn set_color(&mut self, color: ColorCode)
        requires
            old(self).wf(),
        ensures
            final(self).wf(),
            final(self).attr() == color.0,
            final(self).col() == old(self).col(),
            final(self).line() == old(self).line(),
            final(self).screen() == old(self).screen(),
            final(self).is_init() == old(self).is_init(),
    {
        self.color = color;
    }

    fn write_cell(&mut self, row: usize, col: usize, ch: u8)
        requires
            old(self).wf(),
            row < BUFFER_HEIGHT,
            col < BUFFER_WIDTH,
        ensures
            final(self).wf(),
            final(self).screen() == put_cell(old(self).screen(), row as int, col as int, ch, old(self).attr()),
            final(self).col() == old(self).col(),
            final(self).line() == old(self).line(),
            final(self).attr() == old(self).attr(),
            final(self).is_init() == old(self).is_init(),
    {
        let offset = (row * BUFFER_WIDTH + col) * 2;
        let c = self.color.0;
        self.buffer.set(offset, ch);
        self.buffer.set(offset + 1, c);
    }

    /// Writes one character: line feed, carriage return, tab (to the next
    /// multiple of eight within the line), backspace (erases the previous
    /// cell), or a printable byte, wrapping at the end of the line.
    pub fn put_char(&mut self, c: char)
        requires
            old(self).wf(),
        ensures
            final(self).wf(),
            (final(self).col(), final(self).line(), final(self).screen()) == after_put(old(self).col(),
                old(self).line(), old(self).screen(), old(self).attr(), c),
            final(self).attr() == old(self).attr(),
            final(self).is_init() == old(self).is_init(),
    {
        if c == '\n' {
            self.new_line();
            return;
        }
        if c == '\r' {
            self.column = 0;
            return;
        }
        if c == '\t' {
            proof {
                let x: usize = (self.column + 8) as usize;
                assert(x & !7usize == x - x % 8) by (bit_vector);
            }
            let next_tab = (self.column + 8) & !7;
            let ghost start = self.column as int;
            let ghost before = self.buffer@;
            let ghost end: int = if next_tab < 80 { next_tab as int } else { 80 };
            while self.column < next_tab && self.column < BUFFER_WIDTH
                invariant
                    self.wf(),
                    start <= self.column <= end,
                    end <= 80,
                    next_tab as int == (start + 8) - (start + 8) % 8,
                    end == (if next_tab < 80 { next_tab as int } else { 80 }),
                    self.color == old(self).color,
                    self.row == old(self).row,
                    self.initialized == old(self).initialized,
                    self.buffer@ == blank_cells(before, self.row as int, start, self.column as int, self.color.0),
                    start == old(self).column,
                    before == old(self).buffer@,
                decreases 80 - self.column,
            {
                let col = self.column;
                let row = self.row;
                self.write_cell(row, col, 32u8);
                proof {
                    assert(self.buffer@ =~= blank_cells(before, row as int, start, col + 1, self.color.0));
                }
                self.column = self.column + 1;
            }
            return;
        }
        if c == '\x08' {
            if self.column > 0 {
                self.column = self.column - 1;
                let row = self.row;
                let col = self.column;
                self.write_cell(row, col, 32u8);
            }
            return;
        }
        if self.column >= BUFFER_WIDTH {
            self.new_line();
        }
        let row = self.row;
        let col = self.column;
        self.write_cell(row, col, c as u8);
        self.column = self.column + 1;
    }

    /// Writes every character of `s`.
    pub fn write_str(&mut self, s: &str)
        requires
            old(self).wf(),
        ensures
            final(self).wf(),
            (final(self).col(), final(self).line(), final(self).screen()) == after_write(old(self).col(),
                old(self).line(), old(self).screen(), old(self).attr(), s@),
            final(self).attr() == old(self).attr(),
            final(self).is_init() == old(self).is_init(),
    {
        let ghost st = s@;
        let ghost c0 = self.col();
        let ghost r0 = self.line();
        let ghost b0 = self.screen();
        let ghost color = self.attr();
        for ch in it: s.chars()
            invariant
                self.wf(),
                self.attr() == color,
                self.is_init() == old(self).is_init(),
                it.seq() == st,
                st == s@,
                (self.col(), self.line(), self.screen()) == after_write(c0, r0, b0, color, st.take(it.index() as int)),
                c0 == old(self).col(),
                r0 == old(self).line(),
                b0 == old(self).screen(),
                color == old(self).attr(),
        {
            proof {
                assert(st.take(it.index() as int + 1).drop_last() =~= st.take(it.index() as int));
            }
            self.put_char(ch);
        }
        proof {
            assert(st.take(st.len() as int) =~= st);
        }
    }

    /// Moves to the start of the next line, scrolling at the bottom.
    pub fn new_line(&mut self)
        requires
            old(self).wf(),
        ensures
            final(self).wf(),
            (final(self).col(), final(self).line(), final(self).screen()) == after_new_line(old(self).line(),
                old(self).screen(), old(self).attr()),
            final(self).attr() == old(self).attr(),
            final(self).is_init() == old(self).is_init(),
    {
        self.column = 0;
        if self.row + 1 < BUFFER_HEIGHT {
            self.row = self.row + 1;
        } else {
            self.scroll_up();
        }
    }

    fn scroll_up(&mut self)
        requires
            old(self).wf(),
        ensures
            final(self).wf(),
            final(self).screen() == scrolled(old(self).screen(), old(self).attr()),
            final(self).col() == old(self).col(),
            final(self).line() == old(self).line(),
            final(self).attr() == old(self).attr(),
            final(self).is_init() == old(self).is_init(),
    {
        let ghost before = self.buffer@;
        let mut i: usize = 0;
        while i < 3840
            invariant
                self.wf(),
                i <= 3840,
                self.color == old(self).color,
                self.row == old(self).row,
                self.column == old(self).column,
                self.initialized == old(self).initialized,
                before == old(self).buffer@,
                forall|k: int| 0 <= k < i ==> self.buffer@[k] == before[k + 160],
                forall|k: int| i <= k < 4000 ==> self.buffer@[k] == before[k],
            decreases 3840 - i,
        {
            let b = self.buffer[i + 160];
            self.buffer.set(i, b);
            i = i + 1;
        }
        self.clear_line(BUFFER_HEIGHT - 1);
        proof {
            assert(self.buffer@ =~= scrolled(before, self.color.0));
        }
    }

    fn clear_line(&mut self, line: usize)
        requires
            old(self).wf(),
            line < BUFFER_HEIGHT,
        ensures
            final(self).wf(),
            final(self).screen() == blank_cells(old(self).screen(), line as int, 0, 80, old(self).attr()),
            final(self).col() == old(self).col(),
            final(self).line() == old(self).line(),
            final(self).attr() == old(self).attr(),
            final(self).is_init() == old(self).is_init(),
    {
        let ghost before = self.buffer@;
        let mut col: usize = 0;
        while col < BUFFER_WIDTH
            invariant
                self.wf(),
                line < BUFFER_HEIGHT,
                col <= BUFFER_WIDTH,
                self.color == old(self).color,
                self.row == old(self).row,
                self.column == old(self).column,
                self.initialized == old(self).initialized,
                before == old(self).buffer@,
                self.buffer@ == blank_cells(before, line as int, 0, col as int, self.color.0),
            decreases BUFFER_WIDTH - col,
        {
            self.write_cell(line, col, 32u8);
            proof {
                assert(self.buffer@ =~= blank_cells(before, line as int, 0, col + 1, self.color.0));
            }
            col = col + 1;
        }
    }

    /// Blanks the screen in the current attribute and homes the cursor.
    pub fn clear_screen(&mut self)
        requires
            old(self).wf(),
        ensures
            final(self).wf(),
            final(self).screen() == blank_screen(old(self).attr()),
            final(self).col() == 0 && final(self).line() == 0,
            final(self).attr() == old(self).attr(),
            final(self).is_init() == old(self).is_init(),
    {
        let ghost before = self.buffer@;
        let mut i: usize = 0;
        while i < BUFFER_BYTES
            invariant
                self.wf(),
                i <= BUFFER_BYTES,
                i % 2 == 0,
                self.color == old(self).color,
                self.row == old(self).row,
                self.column == old(self).column,
                self.initialized == old(self).initialized,
                forall|k: int| 0 <= k < i ==> self.buffer@[k] == (if k % 2 == 0 { 32u8 } else { self.color.0 }),
            decreases BUFFER_BYTES - i,
        {
            let c = self.color.0;
            self.buffer.set(i, 32u8);
            self.buffer.set(i + 1, c);
            i = i + 2;
        }
        self.row = 0;
        self.column = 0;
        proof {
            assert(self.buffer@ =~= blank_screen(self.color.0));
        }
    }

    /// Cursor position `(column, row)`.
    pub fn get_cursor_position(&self) -> (r: (usize, usize))
        ensures
            r.0 == self.col() && r.1 == self.line(),
    {
        (self.column, self.row)
    }

    /// Moves the cursor, if the position is on screen.
    pub fn set_cursor_position(&mut self, col: usize, row: usize)
        requires
            old(self).wf(),
        ensures
            final(self).wf(),
            col < BUFFER_WIDTH && row < BUFFER_HEIGHT ==> final(self).col() == col && final(self).line() == row,
            !(col < BUFFER_WIDTH && row < BUFFER_HEIGHT) ==> final(self).col() == old(self).col()
                && final(self).line() == old(self).line(),
            final(self).screen() == old(self).screen(),
            final(self).attr() == old(self).attr(),
            final(self).is_init() == old(self).is_init(),
    {
        if col < BUFFER_WIDTH && row < BUFFER_HEIGHT {
            self.column = col;
            self.row = row;
        }
    }

    /// A copy of the text buffer image, for the hardware buffer.
    pub fn buffer_bytes(&self) -> (r: Vec<u8>)
        ensures
            r@ == self.screen(),
    {
        self.buffer.clone()
    }
}

/// The console: the VGA screen and the text bound for the serial port.
pub struct Console {
    pub vga: VgaWriter,
    pub serial: String,
}

impl Console {
    /// A fresh writer and no serial text.
    pub fn new() -> (r: Self)
        ensures
            r.vga.wf(),
            r.vga.col() == 0 && r.vga.line() == 0 && r.vga.attr() == 15,
            r.serial@ == Seq::<char>::empty(),
    {
        Console { vga: VgaWriter::new(), serial: String::new() }
    }

    /// The console is consistent.
    pub open spec fn wf(&self) -> bool {
        self.vga.wf()
    }
}

/// Sends text to the serial port.
pub fn serial_print(con: &mut Console, s: &str)
    ensures
        final(con).serial@ == old(con).serial@ + s@,
        final(con).vga == old(con).vga,
{
    push_str(&mut con.serial, s);
}

/// Sends a line to the serial port.
pub fn serial_println(con: &mut Console, s: &str)
    ensures
        final(con).serial@ == old(con).serial@ + s@ + seq!['\n'],
        final(con).vga == old(con).vga,
{
    serial_print(con, s);
    crate::text::push_char(&mut con.serial, '\n');
}

/// Writes a line to the screen and to the serial port.
pub fn vprintln_impl(con: &mut Console, s: &str)
    requires
        old(con).wf(),
    ensures
        final(con).wf(),
        final(con).serial@ == old(con).serial@ + s@ + seq!['\n'],
        ({
            let v = old(con).vga;
            let (c, r, b) = after_write(v.col(), v.line(), v.screen(), v.attr(), s@.push('\n'));
            &&& final(con).vga.col() == c
            &&& final(con).vga.line() == r
            &&& final(con).vga.screen() == b
        }),
        final(con).vga.attr() == old(con).vga.attr(),
        final(con).vga.is_init() == old(con).vga.is_init(),
{
    con.vga.write_str(s);
    con.vga.put_char('\n');
    proof {
        assert(s@.push('\n').drop_last() =~= s@);
    }
    serial_println(con, s);
}

/// Writes a line made of the pieces to the screen and the serial port.
pub fn say(con: &mut Console, parts: &[&str])
    requires
        old(con).wf(),
    ensures
        final(con).wf(),
        final(con).serial@ == old(con).serial@ + concat_views(parts@) + seq!['\n'],
        final(con).vga.attr() == old(con).vga.attr(),
{
    let line = join_strs(parts);
    vprintln_impl(con, line.as_str());
}

/// The text of lines, each followed by a line break.
pub open spec fn text_lines(lines: Seq<Seq<char>>) -> Seq<char>
    decreases lines.len(),
{
    if lines.len() == 0 {
        Seq::empty()
    } else {
        text_lines(lines.drop_last()) + lines.last() + seq!['\n']
    }
}

/// The text of lines one after another is the text of the first lines
/// followed by the text of the others.
pub proof fn lemma_text_lines_append(a: Seq<Seq<char>>, b: Seq<Seq<char>>)
    ensures
        text_lines(a + b) == text_lines(a) + text_lines(b),
    decreases b.len(),
{
    if b.len() == 0 {
        assert(a + b =~= a);
        assert(text_lines(a) + text_lines(b) =~= text_lines(a));
    } else {
        lemma_text_lines_append(a, b.drop_last());
        assert((a + b).drop_last() =~= a + b.drop_last());
        assert((a + b).last() == b.last());
        assert(text_lines(a + b) =~= text_lines(a) + text_lines(b));
    }
}

/// Writes lines to the screen and the serial port.
pub fn print_lines(con: &mut Console, lines: &Vec<String>)
    requires
        old(con).wf(),
    ensures
        final(con).wf(),
        final(con).serial@ == old(con).serial@ + text_lines(views(lines@)),
        final(con).vga.attr() == old(con).vga.attr(),
{
    let mut i: usize = 0;
    while i < lines.len()
        invariant
            con.wf(),
            i <= lines@.len(),
            con.serial@ == old(con).serial@ + text_lines(views(lines@.take(i as int))),
            con.vga.attr() == old(con).vga.attr(),
        decreases lines@.len() - i,
    {
        vprintln_impl(con, lines[i].as_str());
        proof {
            assert(views(lines@.take(i as int + 1)).drop_last() =~= views(lines@.take(i as int)));
        }
        i = i + 1;
    }
    assert(lines@.take(i as int) =~= lines@);
}

/// Writes text made of the pieces to the screen and the serial port.
pub fn say_part(con: &mut Console, parts: &[&str])
    requires
        old(con).wf(),
    ensures
        final(con).wf(),
        final(con).serial@ == old(con).serial@ + concat_views(parts@),
        final(con).vga.attr() == old(con).vga.attr(),
{
    let text = join_strs(parts);
    vprint(con, text.as_str());
}

/// Writes text to the screen and to the serial port.
pub fn vprint(con: &mut Console, s: &str)
    requires
        old(con).wf(),
    ensures
        final(con).wf(),
        final(con).serial@ == old(con).serial@ + s@,
        ({
            let v = old(con).vga;
            let (c, r, b) = after_write(v.col(), v.line(), v.screen(), v.attr(), s@);
            &&& final(con).vga.col() == c
            &&& final(con).vga.line() == r
            &&& final(con).vga.screen() == b
        }),
        final(con).vga.attr() == old(con).vga.attr(),
        final(con).vga.is_init() == old(con).vga.is_init(),
{
    con.vga.write_str(s);
    serial_print(con, s);
}

/// Initialises the screen.
pub fn init(con: &mut Console) -> (r: Result<(), &'static str>)
    requires
        old(con).wf(),
    ensures
        final(con).wf(),
        r is Ok,
        final(con).vga.is_init(),
        final(con).vga.screen() == blank_screen(old(con).vga.attr()),
        final(con).serial == old(con).serial,
{
    con.vga.init()
}

impl Driver for VgaWriter {
    type Error = &'static str;

    open spec fn driver_inv(&self) -> bool {
        self.wf()
    }

    fn name(&self) -> (r: &'static str)
        ensures
            r@ == "VGA Text Mode Driver"@,
    {
        "VGA Text Mode Driver"
    }

    fn init(&mut self) -> (r: Result<(), &'static str>)
        ensures
            r is Ok,
            final(self).is_init(),
            final(self).screen() == blank_screen(old(self).attr()),
    {
        VgaWriter::init(self)
    }

    fn cleanup(&mut self) -> (r: Result<(), &'static str>)
        ensures
            r is Ok,
            final(self).screen() == blank_screen(old(self).attr()),
            final(self).col() == 0 && final(self).line() == 0,
            final(self).is_init() == old(self).is_init(),
    {
        self.clear_screen();
        Ok(())
    }

    fn is_initialized(&self) -> (r: bool)
        ensures
            r == self.is_init(),
    {
        self.initialized
    }
}

impl OutputDriver for VgaWriter {
    fn write(&mut self, buffer: &[u8]) -> (r: Result<usize, &'static str>)
        ensures
            !vstd::utf8::valid_utf8(buffer@) ==> r is Err && *final(self) == *old(self),
            vstd::utf8::valid_utf8(buffer@) ==> {
                &&& r == Ok::<usize, &'static str>(buffer@.len() as usize)
                &&& (final(self).col(), final(self).line(), final(self).screen()) == after_write(old(self).col(),
                    old(self).line(), old(self).screen(), old(self).attr(), vstd::utf8::decode_utf8(buffer@))
            },
    {
        match utf8_to_string(buffer) {
            None => Err("Invalid UTF-8"),
            Some(text) => {
                self.write_str(text.as_str());
                Ok(buffer.len())
            },
        }
    }

    fn flush(&mut self) -> (r: Result<(), &'static str>)
        ensures
            r is Ok,
            *final(self) == *old(self),
    {
        Ok(())
    }
}

} // verus!
