//! Text console: the 80×25 framebuffer of cells `(attribute << 8) | ascii`
//! held as data, with the cursor position and current colour. Writing a
//! byte, wrapping, scrolling and clearing are exact functions of this
//! state; programming the CRTC cursor registers is the machine edge.

use vstd::prelude::*;

verus! {

pub const VGA_WIDTH: usize = 80;
pub const VGA_HEIGHT: usize = 25;

/// The sixteen VGA colours, in their hardware order.
#[derive(Copy, Clone, PartialEq, Eq, Structural, Debug)]
pub enum VgaColor {
    Black,
    Blue,
    Green,
    Cyan,
    Red,
    Magenta,
    Brown,
    LightGrey,
    DarkGrey,
    LightBlue,
    LightGreen,
    LightCyan,
    LightRed,
    LightMagenta,
    LightBrown,
    White,
}

/// The hardware code of a colour: its position in the palette.
pub open spec fn spec_color_code(c: VgaColor) -> u8 {
    match c {
        VgaColor::Black => 0,
        VgaColor::Blue => 1,
        VgaColor::Green => 2,
        VgaColor::Cyan => 3,
        VgaColor::Red => 4,
        VgaColor::Magenta => 5,
        VgaColor::Brown => 6,
        VgaColor::LightGrey => 7,
        VgaColor::DarkGrey => 8,
        VgaColor::LightBlue => 9,
        VgaColor::LightGreen => 10,
        VgaColor::LightCyan => 11,
        VgaColor::LightRed => 12,
        VgaColor::LightMagenta => 13,
        VgaColor::LightBrown => 14,
        VgaColor::White => 15,
    }
}

/// One framebuffer cell: the character in the low byte, the colour
/// attribute in the high byte.
pub open spec fn spec_entry(c: u8, color: u8) -> u16 {
    (c as u16) | ((color as u16) << 8)
}

/// The console state a contract speaks of: cursor row and column and the
/// 2000 framebuffer cells.
pub struct TermModel {
    pub row: int,
    pub column: int,
    pub buffer: Seq<u16>,
}

/// The framebuffer after scrolling one line: every row moves up, the last
/// row becomes blanks in the given colour.
pub open spec fn spec_scrolled(buffer: Seq<u16>, color: u8) -> Seq<u16> {
    Seq::new(
        (VGA_WIDTH * VGA_HEIGHT) as nat,
        |i: int| if i < (VGA_HEIGHT - 1) * VGA_WIDTH {
            buffer[i + VGA_WIDTH]
        } else {
            spec_entry(32, color)
        },
    )
}

/// The console after a line break: the column returns to 0; on the last
/// row the buffer scrolls, otherwise the cursor moves down one row.
pub open spec fn spec_new_line(m: TermModel, color: u8) -> TermModel {
    if m.row + 1 == VGA_HEIGHT {
        TermModel { row: m.row, column: 0, buffer: spec_scrolled(m.buffer, color) }
    } else {
        TermModel { row: m.row + 1, column: 0, buffer: m.buffer }
    }
}

/// The console after one byte: a newline breaks the line; any other byte
/// lands at the cursor and the cursor advances, breaking the line at the
/// right edge.
pub open spec fn spec_putchar(m: TermModel, color: u8, c: u8) -> TermModel {
    if c == 10 {
        spec_new_line(m, color)
    } else {
        let written = m.buffer.update(m.row * VGA_WIDTH + m.column, spec_entry(c, color));
        if m.column + 1 == VGA_WIDTH {
            spec_new_line(TermModel { row: m.row, column: m.column + 1, buffer: written }, color)
        } else {
            TermModel { row: m.row, column: m.column + 1, buffer: written }
        }
    }
}

/// The console after a sequence of bytes, first byte first.
pub open spec fn spec_write_bytes(m: TermModel, color: u8, s: Seq<u8>) -> TermModel
    decreases s.len(),
{
    if s.len() == 0 {
        m
    } else {
        spec_write_bytes(spec_putchar(m, color, s[0]), color, s.drop_first())
    }
}

/// The console handle.
pub struct Terminal {
    pub row: usize,
    pub column: usize,
    pub color: u8,
    pub buffer: Vec<u16>,
}

impl Terminal {
    pub open spec fn wf(self) -> bool {
        &&& self.buffer@.len() == VGA_WIDTH * VGA_HEIGHT
        &&& self.row < VGA_HEIGHT
        &&& self.column < VGA_WIDTH
    }

    /// The state the contracts speak of.
    pub open spec fn model(self) -> TermModel {
        TermModel { row: self.row as int, column: self.column as int, buffer: self.buffer@ }
    }

    /// A console whose cells are all zero, cursor at the origin, colour 0,
    /// standing for the framebuffer as the model begins.
    pub fn new() -> (r: Terminal)
        ensures
            r.wf(),
            r.row == 0,
            r.column == 0,
            r.color == 0,
            forall|i: int| 0 <= i < VGA_WIDTH * VGA_HEIGHT ==> r.buffer@[i] == 0u16,
    {
        let mut buffer: Vec<u16> = Vec::new();
        let mut i: usize = 0;
        while i < VGA_WIDTH * VGA_HEIGHT
            invariant
                i <= VGA_WIDTH * VGA_HEIGHT,
                buffer@.len() == i,
                forall|j: int| 0 <= j < i ==> buffer@[j] == 0u16,
            decreases VGA_WIDTH * VGA_HEIGHT - i,
        {
            buffer.push(0);
            i = i + 1;
        }
        Terminal { row: 0, column: 0, color: 0, buffer }
    }

    /// Reset the console: cursor at the origin, light grey on black, every
    /// cell a blank in that colour.
    pub fn initialize(&mut self)
        requires
            old(self).wf(),
        ensures
            final(self).wf(),
            final(self).row == 0,
            final(self).column == 0,
            final(self).color == 0x07,
            forall|i: int| 0 <= i < VGA_WIDTH * VGA_HEIGHT ==> final(self).buffer@[i] == spec_entry(
                32,
                0x07,
            ),
    {
        self.row = 0;
        self.column = 0;
        self.color = Self::make_color(VgaColor::LightGrey, VgaColor::Black);
        proof {
            assert((7u8 | (0u8 << 4)) == 7u8) by (bit_vector);
        }
        let mut fresh: Vec<u16> = Vec::new();
        let mut i: usize = 0;
        while i < VGA_WIDTH * VGA_HEIGHT
            invariant
                self.color == 0x07,
                i <= VGA_WIDTH * VGA_HEIGHT,
                fresh@.len() == i,
                forall|j: int| 0 <= j < i ==> fresh@[j] == spec_entry(32, 0x07),
            decreases VGA_WIDTH * VGA_HEIGHT - i,
        {
            fresh.push(Self::make_entry(32, self.color));
            i = i + 1;
        }
        self.buffer = fresh;
    }

    /// Pack a character and an attribute into one cell.
    pub fn make_entry(uc: u8, color: u8) -> (r: u16)
        ensures
            r == spec_entry(uc, color),
    {
        (uc as u16) | ((color as u16) << 8)
    }

    /// Pack a foreground and a background colour into one attribute byte.
    pub fn make_color(fg: VgaColor, bg: VgaColor) -> (r: u8)
        ensures
            r == (spec_color_code(fg) | (spec_color_code(bg) << 4)),
    {
        let f: u8 = match fg {
            VgaColor::Black => 0,
            VgaColor::Blue => 1,
            VgaColor::Green => 2,
            VgaColor::Cyan => 3,
            VgaColor::Red => 4,
            VgaColor::Magenta => 5,
            VgaColor::Brown => 6,
            VgaColor::LightGrey => 7,
            VgaColor::DarkGrey => 8,
            VgaColor::LightBlue => 9,
            VgaColor::LightGreen => 10,
            VgaColor::LightCyan => 11,
            VgaColor::LightRed => 12,
            VgaColor::LightMagenta => 13,
            VgaColor::LightBrown => 14,
            VgaColor::White => 15,
        };
        let b: u8 = match bg {
            VgaColor::Black => 0,
            VgaColor::Blue => 1,
            VgaColor::Green => 2,
            VgaColor::Cyan => 3,
            VgaColor::Red => 4,
            VgaColor::Magenta => 5,
            VgaColor::Brown => 6,
            VgaColor::LightGrey => 7,
            VgaColor::DarkGrey => 8,
            VgaColor::LightBlue => 9,
            VgaColor::LightGreen => 10,
            VgaColor::LightCyan => 11,
            VgaColor::LightRed => 12,
            VgaColor::LightMagenta => 13,
            VgaColor::LightBrown => 14,
            VgaColor::White => 15,
        };
        f | (b << 4)
    }

    /// Break the line: column 0, next row, scrolling on the last row.
    /// The column may stand one past the right edge when this is called.
    fn new_line(&mut self)
        requires
            old(self).buffer@.len() == VGA_WIDTH * VGA_HEIGHT,
            old(self).row < VGA_HEIGHT,
        ensures
            final(self).wf(),
            final(self).color == old(self).color,
            final(self).model() == spec_new_line(old(self).model(), old(self).color),
    {
        self.column = 0;
        if self.row + 1 == VGA_HEIGHT {
            self.scroll();
        } else {
            self.row = self.row + 1;
        }
    }

    /// Move every row up one and blank the last row.
    fn scroll(&mut self)
        requires
            old(self).buffer@.len() == VGA_WIDTH * VGA_HEIGHT,
        ensures
            final(self).buffer@.len() == VGA_WIDTH * VGA_HEIGHT,
            final(self).row == old(self).row,
            final(self).column == old(self).column,
            final(self).color == old(self).color,
            final(self).buffer@ == spec_scrolled(old(self).buffer@, old(self).color),
    {
        let ghost pre = self.buffer@;
        let mut fresh: Vec<u16> = Vec::new();
        let mut i: usize = 0;
        while i < (VGA_HEIGHT - 1) * VGA_WIDTH
            invariant
                self.buffer@ == pre,
                pre.len() == VGA_WIDTH * VGA_HEIGHT,
                self.color == old(self).color,
                i <= (VGA_HEIGHT - 1) * VGA_WIDTH,
                fresh@.len() == i,
                forall|j: int| 0 <= j < i ==> fresh@[j] == pre[j + VGA_WIDTH],
            decreases (VGA_HEIGHT - 1) * VGA_WIDTH - i,
        {
            fresh.push(self.buffer[i + VGA_WIDTH]);
            i = i + 1;
        }
        let blank = Self::make_entry(32, self.color);
        let mut k: usize = 0;
        while k < VGA_WIDTH
            invariant
                self.buffer@ == pre,
                pre.len() == VGA_WIDTH * VGA_HEIGHT,
                self.color == old(self).color,
                blank == spec_entry(32, self.color),
                k <= VGA_WIDTH,
                fresh@.len() == (VGA_HEIGHT - 1) * VGA_WIDTH + k,
                forall|j: int| 0 <= j < (VGA_HEIGHT - 1) * VGA_WIDTH ==> fresh@[j] == pre[j
                    + VGA_WIDTH],
                forall|j: int| (VGA_HEIGHT - 1) * VGA_WIDTH <= j < fresh@.len() ==> fresh@[j]
                    == spec_entry(32, self.color),
            decreases VGA_WIDTH - k,
        {
            fresh.push(blank);
            k = k + 1;
        }
        self.buffer = fresh;
        proof {
            assert(self.buffer@ =~= spec_scrolled(pre, self.color));
        }
    }

    /// Write one byte at the cursor (or break the line on a newline) and
    /// advance.
    pub fn putchar(&mut self, c: u8)
        requires
            old(self).wf(),
        ensures
            final(self).wf(),
            final(self).color == old(self).color,
            final(self).model() == spec_putchar(old(self).model(), old(self).color, c),
    {
        if c == 10 {
            self.new_line();
            return;
        }
        let idx = self.row * VGA_WIDTH + self.column;
        let entry = Self::make_entry(c, self.color);
        self.buffer[idx] = entry;
        self.column = self.column + 1;
        if self.column == VGA_WIDTH {
            self.new_line();
        }
    }

    /// Write a sequence of bytes, first byte first.
    pub fn writestring(&mut self, s: &[u8])
        requires
            old(self).wf(),
        ensures
            final(self).wf(),
            final(self).color == old(self).color,
            final(self).model() == spec_write_bytes(old(self).model(), old(self).color, s@),
    {
        let ghost m0 = self.model();
        let ghost color = self.color;
        proof {
            assert(s@.skip(0) =~= s@);
        }
        let n = s.len();
        let mut i: usize = 0;
        while i < n
            invariant
                self.wf(),
                self.color == color,
                n == s@.len(),
                i <= n,
                spec_write_bytes(self.model(), color, s@.skip(i as int)) == spec_write_bytes(
                    m0,
                    color,
                    s@,
                ),
            decreases n - i,
        {
            proof {
                assert(s@.skip(i as int).drop_first() =~= s@.skip(i as int + 1));
                assert(s@.skip(i as int)[0] == s@[i as int]);
            }
            self.putchar(s[i]);
            i = i + 1;
        }
        proof {
            assert(s@.skip(n as int) =~= Seq::<u8>::empty());
        }
    }

    /// Write a sequence of bytes and break the line.
    pub fn write_line(&mut self, s: &[u8])
        requires
            old(self).wf(),
        ensures
            final(self).wf(),
            final(self).color == old(self).color,
            final(self).model() == spec_new_line(
                spec_write_bytes(old(self).model(), old(self).color, s@),
                old(self).color,
            ),
    {
        self.writestring(s);
        self.new_line();
    }

    /// Set the attribute byte used for subsequent writes.
    pub fn set_color(&mut self, color: u8)
        requires
            old(self).wf(),
        ensures
            final(self).wf(),
            final(self).color == color,
            final(self).model() == old(self).model(),
    {
        self.color = color;
    }

    /// Set the attribute from a foreground and a background colour.
    pub fn set_full_color(&mut self, fg: VgaColor, bg: VgaColor)
        requires
            old(self).wf(),
        ensures
            final(self).wf(),
            final(self).color == (spec_color_code(fg) | (spec_color_code(bg) << 4)),
            final(self).model() == old(self).model(),
    {
        self.color = Self::make_color(fg, bg);
    }

    /// Write one cell directly, without moving the cursor.
    pub fn put_at(&mut self, c: u8, color: u8, x: usize, y: usize)
        requires
            old(self).wf(),
            x < VGA_WIDTH,
            y < VGA_HEIGHT,
        ensures
            final(self).wf(),
            final(self).row == old(self).row,
            final(self).column == old(self).column,
            final(self).color == old(self).color,
            final(self).buffer@ == old(self).buffer@.update(
                y * VGA_WIDTH + x,
                spec_entry(c, color),
            ),
    {
        let idx = y * VGA_WIDTH + x;
        let entry = Self::make_entry(c, color);
        self.buffer[idx] = entry;
    }

    /// Move the cursor.
    pub fn set_cursor(&mut self, row: usize, column: usize)
        requires
            old(self).wf(),
            row < VGA_HEIGHT,
            column < VGA_WIDTH,
        ensures
            final(self).wf(),
            final(self).row == row,
            final(self).column == column,
            final(self).color == old(self).color,
            final(self).buffer@ == old(self).buffer@,
    {
        self.row = row;
        self.column = column;
    }

    /// The port writes that move the hardware cursor to this console's
    /// cursor position: the CRTC low-byte and high-byte registers are
    /// selected and written in turn.
    pub fn cursor_writes(&self) -> (writes: Vec<(u16, u8)>)
        requires
            self.wf(),
        ensures
            writes@ == seq![
                (0x3D4u16, 0x0Fu8),
                (0x3D5u16, ((self.row * VGA_WIDTH + self.column) as u16 & 0xFF) as u8),
                (0x3D4u16, 0x0Eu8),
                (0x3D5u16, (((self.row * VGA_WIDTH + self.column) as u16 >> 8) & 0xFF) as u8),
            ],
    {
        let pos: u16 = (self.row * VGA_WIDTH + self.column) as u16;
        let mut writes: Vec<(u16, u8)> = Vec::new();
        writes.push((0x3D4, 0x0F));
        writes.push((0x3D5, (pos & 0xFF) as u8));
        writes.push((0x3D4, 0x0E));
        writes.push((0x3D5, ((pos >> 8) & 0xFF) as u8));
        proof {
            assert(writes@ =~= seq![
                (0x3D4u16, 0x0Fu8),
                (0x3D5u16, (pos & 0xFF) as u8),
                (0x3D4u16, 0x0Eu8),
                (0x3D5u16, ((pos >> 8) & 0xFF) as u8),
            ]);
        }
        writes
    }

    /// The console height in rows.
    pub fn get_vga_height(&self) -> (r: usize)
        ensures
            r == VGA_HEIGHT,
    {
        VGA_HEIGHT
    }

    /// The console width in columns.
    pub fn get_vga_width(&self) -> (r: usize)
        ensures
            r == VGA_WIDTH,
    {
        VGA_WIDTH
    }

    /// Blank every cell in the current colour and home the cursor.
    pub fn clear(&mut self)
        requires
            old(self).wf(),
        ensures
            final(self).wf(),
            final(self).row == 0,
            final(self).column == 0,
            final(self).color == old(self).color,
            forall|i: int| 0 <= i < VGA_WIDTH * VGA_HEIGHT ==> final(self).buffer@[i] == spec_entry(
                32,
                old(self).color,
            ),
    {
        let blank = Self::make_entry(32, self.color);
        let mut fresh: Vec<u16> = Vec::new();
        let mut i: usize = 0;
        while i < VGA_WIDTH * VGA_HEIGHT
            invariant
                blank == spec_entry(32, old(self).color),
                self.color == old(self).color,
                self.wf(),
                i <= VGA_WIDTH * VGA_HEIGHT,
                fresh@.len() == i,
                forall|j: int| 0 <= j < i ==> fresh@[j] == spec_entry(32, old(self).color),
            decreases VGA_WIDTH * VGA_HEIGHT - i,
        {
            fresh.push(blank);
            i = i + 1;
        }
        self.buffer = fresh;
        self.row = 0;
        self.column = 0;
    }
}

} // verus!
