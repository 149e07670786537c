//! The console device: cursor, current color, interpreter state and the
//! character grid, with putchar semantics, line wrap and scrolling.
use vstd::prelude::*;
use crate::color::{ConsoleColor, VgaTextColor, VgaTextColorCode, default_attr, pack};
use crate::interp::{
    ESC, LEFT_BRACKET, SGR_END, DIGIT_ZERO, DIGIT_NINE, VgaTextSetColor, VgaTextState,
    accumulate_digit, is_digit, lemma_sgr_bright_green, next_attr, next_state,
};

verus! {

/// The number of rows of the grid.
pub const VGA_BUFFER_HEIGHT: usize = 25;

/// The number of columns of the grid.
pub const VGA_BUFFER_WIDTH: usize = 80;

/// The number of cells of the grid.
pub const VGA_BUFFER_CELLS: usize = 2000;

/// Carriage return.
pub const CR: u8 = 0x0d;

/// Line feed, handled as carriage return and line feed.
pub const LF: u8 = 0x0a;

/// Backspace.
pub const BACKSPACE: u8 = 0x08;

/// The blank glyph.
pub const SPACE: u8 = 0x20;

/// One grid cell: a glyph byte and its attribute.
#[derive(Clone, Copy, PartialEq, Eq, Structural, Debug)]
pub struct VgaTextChar(pub u8, pub VgaTextColorCode);

/// The abstract state of a console: cursor, attribute, interpreter state,
/// the cells row by row as (glyph, attribute), and the print level.
pub struct ConsoleView {
    pub x: int,
    pub y: int,
    pub attr: u8,
    pub state: VgaTextState,
    pub cells: Seq<(u8, u8)>,
    pub max_level: u8,
}

/// The position in the row-major cell sequence of row `y`, column `x`.
pub open spec fn cell_index(y: int, x: int) -> int {
    y * VGA_BUFFER_WIDTH + x
}

/// The console after the interpreter has read `ch`: new state and attribute.
pub open spec fn interpret(m: ConsoleView, ch: u8) -> ConsoleView {
    ConsoleView { state: next_state(m.state, ch), attr: next_attr(m.state, m.attr, ch), ..m }
}

/// The console after `n` rows scrolled out at the top: rows `n..` move up
/// by `n`, the bottom `n` rows keep their old content, the cursor moves up
/// by `n`. Nothing happens when `n` exceeds the height.
pub open spec fn scroll(m: ConsoleView, n: int) -> ConsoleView {
    if n > VGA_BUFFER_HEIGHT {
        m
    } else {
        ConsoleView {
            cells: Seq::new(
                m.cells.len(),
                |i: int|
                    if i < (VGA_BUFFER_HEIGHT - n) * VGA_BUFFER_WIDTH {
                        m.cells[i + n * VGA_BUFFER_WIDTH]
                    } else {
                        m.cells[i]
                    },
            ),
            y: m.y - n,
            ..m
        }
    }
}

/// The console after `ch` is applied as a character at the cursor: carriage
/// return, line feed, backspace (nothing at column 0), or a glyph; then line
/// wrap, then a scroll when the cursor has left the bottom row.
pub open spec fn write_glyph(m: ConsoleView, ch: u8) -> ConsoleView {
    let m1 = if ch == CR {
        ConsoleView { x: 0, ..m }
    } else if ch == LF {
        ConsoleView { x: 0, y: m.y + 1, ..m }
    } else if ch == BACKSPACE {
        if m.x > 0 {
            ConsoleView {
                x: m.x - 1,
                cells: m.cells.update(cell_index(m.y, m.x - 1), (SPACE, m.attr)),
                ..m
            }
        } else {
            m
        }
    } else {
        ConsoleView { x: m.x + 1, cells: m.cells.update(cell_index(m.y, m.x), (ch, m.attr)), ..m }
    };
    let m2 = if m1.x >= VGA_BUFFER_WIDTH {
        ConsoleView { x: 0, y: m1.y + 1, ..m1 }
    } else {
        m1
    };
    if m2.y >= VGA_BUFFER_HEIGHT {
        scroll(m2, m2.y - VGA_BUFFER_HEIGHT + 1)
    } else {
        m2
    }
}

/// The console after one output byte: the interpreter reads it, and it is
/// written as a character when the interpreter passes it through.
pub open spec fn step(m: ConsoleView, ch: u8) -> ConsoleView {
    let m1 = interpret(m, ch);
    if m1.state == VgaTextState::PutChar {
        write_glyph(m1, ch)
    } else {
        m1
    }
}

/// The console after the bytes of `s` in order.
pub open spec fn feed(m: ConsoleView, s: Seq<u8>) -> ConsoleView
    decreases s.len(),
{
    if s.len() == 0 {
        m
    } else {
        step(feed(m, s.drop_last()), s.last())
    }
}

/// The console device. Its grid is unbound (empty) until `init_early`
/// binds it to a full grid of cells.
pub struct VgaTextMode {
    current_x: usize,
    current_y: usize,
    current_color: VgaTextColorCode,
    state: VgaTextState,
    buffer: Vec<VgaTextChar>,
    max_level: u8,
}

impl View for VgaTextMode {
    type V = ConsoleView;

    closed spec fn view(&self) -> ConsoleView {
        ConsoleView {
            x: self.current_x as int,
            y: self.current_y as int,
            attr: self.current_color@,
            state: self.state,
            cells: Seq::new(self.buffer@.len(), |i: int| (self.buffer@[i].0, self.buffer@[i].1@)),
            max_level: self.max_level,
        }
    }
}

/// The console's invariant over its view: the cursor lies in the grid, the
/// grid is unbound or complete, and the print level is at most 3.
pub open spec fn console_inv(m: ConsoleView) -> bool {
    &&& 0 <= m.x < VGA_BUFFER_WIDTH
    &&& 0 <= m.y < VGA_BUFFER_HEIGHT
    &&& (m.cells.len() == 0 || m.cells.len() == VGA_BUFFER_CELLS)
    &&& m.max_level <= 3
}

/// The grid is bound.
pub open spec fn is_bound(m: ConsoleView) -> bool {
    m.cells.len() == VGA_BUFFER_CELLS
}

impl VgaTextMode {
    /// A console with the cursor at the top left, white on black, no
    /// sequence in progress, every print level shown, and no grid yet.
    pub fn new() -> (r: VgaTextMode)
        ensures
            console_inv(r@),
            r@.x == 0,
            r@.y == 0,
            r@.attr == default_attr(),
            r@.state == VgaTextState::PutChar,
            r@.cells.len() == 0,
            r@.max_level == 3,
    {
        VgaTextMode {
            current_x: 0,
            current_y: 0,
            current_color: VgaTextColorCode::new(VgaTextColor::White, VgaTextColor::Black),
            state: VgaTextState::PutChar,
            buffer: Vec::new(),
            max_level: 3,
        }
    }
}

impl VgaTextMode {
    /// The invariant of the device.
    pub open spec fn inv(&self) -> bool {
        console_inv(self@)
    }

    /// Sets the current attribute to `color`, or to white on black for `None`.
    pub fn set_color(&mut self, color: Option<VgaTextColorCode>)
        ensures
            final(self)@ == (ConsoleView {
                attr: match color {
                    Some(c) => c@,
                    None => default_attr(),
                },
                ..old(self)@
            }),
    {
        self.current_color = match color {
            Some(c) => c,
            None => VgaTextColorCode::new(VgaTextColor::White, VgaTextColor::Black),
        };
    }

    /// Feeds `ch` to the escape-sequence interpreter and returns its new
    /// state: `PutChar` when `ch` is to be printed.
    pub fn process_char(&mut self, ch: u8) -> (r: VgaTextState)
        ensures
            final(self)@ == interpret(old(self)@, ch),
            r == final(self)@.state,
    {
        match self.state {
            VgaTextState::PutChar => {
                if ch == ESC {
                    self.state = VgaTextState::SetColor(VgaTextSetColor::Start);
                }
            },
            VgaTextState::SetColor(VgaTextSetColor::Start) => {
                if ch == LEFT_BRACKET {
                    self.state = VgaTextState::SetColor(VgaTextSetColor::LeftBrackets);
                } else {
                    self.state = VgaTextState::PutChar;
                }
            },
            VgaTextState::SetColor(VgaTextSetColor::LeftBrackets) => {
                if ch == SGR_END {
                    self.set_color(None);
                    self.state = VgaTextState::SetColor(VgaTextSetColor::End);
                } else if DIGIT_ZERO <= ch && ch <= DIGIT_NINE {
                    self.state = VgaTextState::SetColor(VgaTextSetColor::Value(ch - DIGIT_ZERO));
                } else {
                    self.state = VgaTextState::PutChar;
                }
            },
            VgaTextState::SetColor(VgaTextSetColor::Value(v)) => {
                if ch == SGR_END {
                    let color = match ConsoleColor::from_ansi(v) {
                        Some(c) => Some(
                            VgaTextColorCode::new(
                                VgaTextColor::from_console_color(c),
                                VgaTextColor::Black,
                            ),
                        ),
                        None => None,
                    };
                    self.set_color(color);
                    self.state = VgaTextState::SetColor(VgaTextSetColor::End);
                } else if DIGIT_ZERO <= ch && ch <= DIGIT_NINE {
                    self.state = VgaTextState::SetColor(
                        VgaTextSetColor::Value(accumulate_digit(v, ch - DIGIT_ZERO)),
                    );
                } else {
                    self.state = VgaTextState::PutChar;
                }
            },
            VgaTextState::SetColor(VgaTextSetColor::End) => {
                if ch == ESC {
                    self.state = VgaTextState::SetColor(VgaTextSetColor::Start);
                } else {
                    self.state = VgaTextState::PutChar;
                }
            },
        }
        proof {
            assert(self@ =~= interpret(old(self)@, ch));
        }
        self.state
    }
}

impl VgaTextMode {
    /// Moves rows `line..` up by `line` rows and the cursor up by `line`;
    /// the bottom `line` rows keep their content. Does nothing when `line`
    /// exceeds the height.
    pub fn scroll_up(&mut self, line: usize)
        requires
            is_bound(old(self)@),
            line > VGA_BUFFER_HEIGHT || line <= old(self)@.y,
        ensures
            final(self)@ == scroll(old(self)@, line as int),
    {
        if line > VGA_BUFFER_HEIGHT {
            return;
        }
        let ghost m = self@;
        let offset: usize = line * VGA_BUFFER_WIDTH;
        let size: usize = (VGA_BUFFER_HEIGHT - line) * VGA_BUFFER_WIDTH;
        let mut i: usize = 0;
        while i < size
            invariant
                m == old(self)@,
                m.cells.len() == VGA_BUFFER_CELLS,
                offset == line * VGA_BUFFER_WIDTH,
                size == (VGA_BUFFER_HEIGHT - line) * VGA_BUFFER_WIDTH,
                size + offset == VGA_BUFFER_CELLS,
                i <= size,
                self.buffer@.len() == VGA_BUFFER_CELLS,
                forall|j: int|
                    0 <= j < i ==> (self.buffer@[j].0, self.buffer@[j].1@) == m.cells[j + offset],
                forall|j: int|
                    i <= j < VGA_BUFFER_CELLS ==> (self.buffer@[j].0, self.buffer@[j].1@)
                        == m.cells[j],
                self.current_x == old(self).current_x,
                self.current_y == old(self).current_y,
                self.current_color == old(self).current_color,
                self.state == old(self).state,
                self.max_level == old(self).max_level,
            decreases size - i,
        {
            let c = self.buffer[i + offset];
            self.buffer.set(i, c);
            i += 1;
        }
        self.current_y -= line;
        proof {
            let e = scroll(m, line as int);
            assert(self@.cells =~= e.cells);
            assert(self@ =~= e);
        }
    }

    /// Applies `ch` as a character at the cursor: `\r` returns to column 0,
    /// `\n` starts the next line, backspace erases the cell left of the
    /// cursor (nothing at column 0), any other byte is stored with the
    /// current attribute and advances the cursor; then the line wraps and
    /// the grid scrolls as needed.
    pub fn putchar(&mut self, ch: u8)
        requires
            old(self).inv(),
            is_bound(old(self)@),
        ensures
            final(self).inv(),
            is_bound(final(self)@),
            final(self)@ == write_glyph(old(self)@, ch),
    {
        let ghost m = self@;
        if ch == CR {
            self.current_x = 0;
        } else if ch == LF {
            self.current_x = 0;
            self.current_y += 1;
        } else if ch == BACKSPACE {
            if self.current_x > 0 {
                self.current_x -= 1;
                let k: usize = self.current_y * VGA_BUFFER_WIDTH + self.current_x;
                self.buffer.set(k, VgaTextChar(SPACE, self.current_color));
            }
        } else {
            let k: usize = self.current_y * VGA_BUFFER_WIDTH + self.current_x;
            self.buffer.set(k, VgaTextChar(ch, self.current_color));
            self.current_x += 1;
        }
        let ghost m1 = self@;
        proof {
            let e = if ch == CR {
                ConsoleView { x: 0, ..m }
            } else if ch == LF {
                ConsoleView { x: 0, y: m.y + 1, ..m }
            } else if ch == BACKSPACE {
                if m.x > 0 {
                    ConsoleView {
                        x: m.x - 1,
                        cells: m.cells.update(cell_index(m.y, m.x - 1), (SPACE, m.attr)),
                        ..m
                    }
                } else {
                    m
                }
            } else {
                ConsoleView {
                    x: m.x + 1,
                    cells: m.cells.update(cell_index(m.y, m.x), (ch, m.attr)),
                    ..m
                }
            };
            assert(m1.cells =~= e.cells);
            assert(m1 == e);
        }
        if self.current_x >= VGA_BUFFER_WIDTH {
            self.current_x = 0;
            self.current_y += 1;
        }
        if self.current_y >= VGA_BUFFER_HEIGHT {
            self.scroll_up(self.current_y - VGA_BUFFER_HEIGHT + 1);
        }
    }
}

/// Writes one output byte to the console: the interpreter reads it, and it
/// is printed when the interpreter passes it through.
pub fn putchar(vga: &mut VgaTextMode, c: u8)
    requires
        old(vga).inv(),
        is_bound(old(vga)@),
    ensures
        final(vga).inv(),
        is_bound(final(vga)@),
        final(vga)@ == step(old(vga)@, c),
{
    if vga.process_char(c) == VgaTextState::PutChar {
        vga.putchar(c);
    }
}

impl VgaTextMode {
    /// Writes each byte of `s` in order, as `putchar` does.
    pub fn write_str(&mut self, s: &[u8])
        requires
            old(self).inv(),
            is_bound(old(self)@),
        ensures
            final(self).inv(),
            is_bound(final(self)@),
            final(self)@ == feed(old(self)@, s@),
    {
        let mut i: usize = 0;
        while i < s.len()
            invariant
                i <= s@.len(),
                self.inv(),
                is_bound(self@),
                self@ == feed(old(self)@, s@.take(i as int)),
            decreases s@.len() - i,
        {
            putchar(self, s[i]);
            proof {
                assert(s@.take(i + 1).drop_last() =~= s@.take(i as int));
            }
            i += 1;
        }
        assert(s@.take(s@.len() as int) =~= s@);
    }
}

/// Binds the grid and clears every cell to a blank in the current
/// attribute; the cursor, attribute and interpreter state stay.
pub fn init_early(vga: &mut VgaTextMode)
    requires
        old(vga).inv(),
    ensures
        final(vga).inv(),
        is_bound(final(vga)@),
        final(vga)@ == (ConsoleView {
            cells: Seq::new(VGA_BUFFER_CELLS as nat, |i: int| (SPACE, old(vga)@.attr)),
            ..old(vga)@
        }),
{
    let mut buffer: Vec<VgaTextChar> = Vec::new();
    while buffer.len() < VGA_BUFFER_CELLS
        invariant
            buffer@.len() <= VGA_BUFFER_CELLS,
            forall|j: int| 0 <= j < buffer@.len() ==> buffer@[j] == VgaTextChar(SPACE, vga.current_color),
        decreases VGA_BUFFER_CELLS - buffer@.len(),
    {
        buffer.push(VgaTextChar(SPACE, vga.current_color));
    }
    vga.buffer = buffer;
    proof {
        let e = ConsoleView {
            cells: Seq::new(VGA_BUFFER_CELLS as nat, |i: int| (SPACE, old(vga)@.attr)),
            ..old(vga)@
        };
        assert(vga@.cells =~= e.cells);
        assert(vga@ =~= e);
    }
}

/// Sets the largest level that `print_debug` shows.
pub fn set_max_level(vga: &mut VgaTextMode, level: u8)
    requires
        old(vga).inv(),
        level <= 3,
    ensures
        final(vga).inv(),
        final(vga)@ == (ConsoleView { max_level: level, ..old(vga)@ }),
{
    vga.max_level = level;
}

/// Why `print_debug` printed nothing.
#[derive(Clone, Copy, PartialEq, Eq, Structural, Debug)]
pub enum PrintError {
    /// The level is 0, or above the largest level shown.
    Filtered,
}

/// The tag that opens a message of a level: `[INFO]`, `[DEV]` or `[DEBUG]`,
/// padded with blanks to eight bytes.
pub open spec fn level_tag(level: u8) -> Seq<u8> {
    if level == 1 {
        seq![0x5bu8, 0x49, 0x4e, 0x46, 0x4f, 0x5d, 0x20, 0x20]
    } else if level == 2 {
        seq![0x5bu8, 0x44, 0x45, 0x56, 0x5d, 0x20, 0x20, 0x20]
    } else {
        seq![0x5bu8, 0x44, 0x45, 0x42, 0x55, 0x47, 0x5d, 0x20]
    }
}

/// The attribute of a level's tag: light green, light blue or yellow on black.
pub open spec fn level_attr(level: u8) -> u8 {
    if level == 1 {
        pack(VgaTextColor::LightGreen, VgaTextColor::Black)
    } else if level == 2 {
        pack(VgaTextColor::LightBlue, VgaTextColor::Black)
    } else {
        pack(VgaTextColor::Yellow, VgaTextColor::Black)
    }
}

/// A message of level `level` is shown: the level is 1, 2 or 3 and at most
/// the largest level shown.
pub open spec fn level_shown(m: ConsoleView, level: u8) -> bool {
    1 <= level <= 3 && level <= m.max_level
}

/// The console after a shown message: the tag in the level's attribute,
/// then `text` starting in the default attribute.
pub open spec fn print_message(m: ConsoleView, level: u8, text: Seq<u8>) -> ConsoleView {
    let tagged = feed(ConsoleView { attr: level_attr(level), ..m }, level_tag(level));
    feed(ConsoleView { attr: default_attr(), ..tagged }, text)
}

/// Prints `text` under the tag of `level` when that level is shown, and
/// reports `Filtered` with the console untouched otherwise.
pub fn print_debug(vga: &mut VgaTextMode, level: u8, text: &[u8]) -> (r: Result<(), PrintError>)
    requires
        old(vga).inv(),
        is_bound(old(vga)@),
    ensures
        final(vga).inv(),
        level_shown(old(vga)@, level) ==> r is Ok && final(vga)@ == print_message(
            old(vga)@,
            level,
            text@,
        ),
        !level_shown(old(vga)@, level) ==> r == Err::<(), PrintError>(PrintError::Filtered)
            && final(vga)@ == old(vga)@,
{
    if level > vga.max_level {
        return Err(PrintError::Filtered);
    }
    if level == 1 {
        vga.set_color(Some(VgaTextColorCode::new(VgaTextColor::LightGreen, VgaTextColor::Black)));
        let tag: Vec<u8> = vec![0x5bu8, 0x49, 0x4e, 0x46, 0x4f, 0x5d, 0x20, 0x20];
        assert(tag@ =~= level_tag(level));
        vga.write_str(tag.as_slice());
    } else if level == 2 {
        vga.set_color(Some(VgaTextColorCode::new(VgaTextColor::LightBlue, VgaTextColor::Black)));
        let tag: Vec<u8> = vec![0x5bu8, 0x44, 0x45, 0x56, 0x5d, 0x20, 0x20, 0x20];
        assert(tag@ =~= level_tag(level));
        vga.write_str(tag.as_slice());
    } else if level == 3 {
        vga.set_color(Some(VgaTextColorCode::new(VgaTextColor::Yellow, VgaTextColor::Black)));
        let tag: Vec<u8> = vec![0x5bu8, 0x44, 0x45, 0x42, 0x55, 0x47, 0x5d, 0x20];
        assert(tag@ =~= level_tag(level));
        vga.write_str(tag.as_slice());
    } else {
        return Err(PrintError::Filtered);
    }
    vga.set_color(Some(VgaTextColorCode::new(VgaTextColor::White, VgaTextColor::Black)));
    vga.write_str(text);
    Ok(())
}

impl VgaTextMode {
    /// The cursor column.
    pub fn cursor_x(&self) -> (r: usize)
        ensures
            r == self@.x,
    {
        self.current_x
    }

    /// The cursor row.
    pub fn cursor_y(&self) -> (r: usize)
        ensures
            r == self@.y,
    {
        self.current_y
    }

    /// The current attribute.
    pub fn color(&self) -> (r: VgaTextColorCode)
        ensures
            r@ == self@.attr,
    {
        self.current_color
    }

    /// The interpreter state.
    pub fn state(&self) -> (r: VgaTextState)
        ensures
            r == self@.state,
    {
        self.state
    }

    /// The largest level that `print_debug` shows.
    pub fn max_level(&self) -> (r: u8)
        ensures
            r == self@.max_level,
    {
        self.max_level
    }

    /// Whether the grid is bound.
    pub fn bound(&self) -> (r: bool)
        requires
            self.inv(),
        ensures
            r == is_bound(self@),
    {
        self.buffer.len() == VGA_BUFFER_CELLS
    }

    /// The cell at row `row`, column `col`.
    pub fn cell(&self, row: usize, col: usize) -> (r: VgaTextChar)
        requires
            is_bound(self@),
            row < VGA_BUFFER_HEIGHT,
            col < VGA_BUFFER_WIDTH,
        ensures
            (r.0, r.1@) == self@.cells[cell_index(row as int, col as int)],
    {
        self.buffer[row * VGA_BUFFER_WIDTH + col]
    }
}

/// Scrolling by `n` rows moves row `r + n` to row `r` for every row that
/// stays on screen, and moves the cursor up by `n`.
pub proof fn lemma_scroll_moves_rows(m: ConsoleView, n: int)
    requires
        is_bound(m),
        0 <= n <= VGA_BUFFER_HEIGHT,
    ensures
        scroll(m, n).y == m.y - n,
        scroll(m, n).x == m.x,
        forall|r: int, c: int|
            0 <= r < VGA_BUFFER_HEIGHT - n && 0 <= c < VGA_BUFFER_WIDTH ==> #[trigger] scroll(
                m,
                n,
            ).cells[cell_index(r, c)] == m.cells[cell_index(r + n, c)],
{
    assert forall|r: int, c: int|
        0 <= r < VGA_BUFFER_HEIGHT - n && 0 <= c < VGA_BUFFER_WIDTH implies #[trigger] scroll(
            m,
            n,
        ).cells[cell_index(r, c)] == m.cells[cell_index(r + n, c)] by {
        assert(cell_index(r, c) < (VGA_BUFFER_HEIGHT - n) * VGA_BUFFER_WIDTH) by (nonlinear_arith)
            requires
                r < VGA_BUFFER_HEIGHT - n,
                0 <= c < VGA_BUFFER_WIDTH,
        ;
        assert(cell_index(r, c) + n * VGA_BUFFER_WIDTH == cell_index(r + n, c)) by (nonlinear_arith);
    }
}

/// A line feed on the bottom row scrolls the grid by one row: each row
/// that stays on screen shows what the row below it showed, and the cursor
/// stays on the bottom row, at column 0.
pub proof fn lemma_line_feed_at_bottom_scrolls(m: ConsoleView)
    requires
        console_inv(m),
        is_bound(m),
        m.state == VgaTextState::PutChar,
        m.y == VGA_BUFFER_HEIGHT - 1,
    ensures
        step(m, LF).y == m.y,
        step(m, LF).x == 0,
        forall|r: int, c: int|
            0 <= r < VGA_BUFFER_HEIGHT - 1 && 0 <= c < VGA_BUFFER_WIDTH ==> #[trigger] step(
                m,
                LF,
            ).cells[cell_index(r, c)] == m.cells[cell_index(r + 1, c)],
{
    let m2 = ConsoleView { x: 0, y: m.y + 1, ..m };
    assert(step(m, LF) == scroll(m2, 1));
    lemma_scroll_moves_rows(m2, 1);
}

/// A byte that is printed as a glyph from the normal state: not the
/// escape byte, carriage return, line feed or backspace.
pub open spec fn is_plain(ch: u8) -> bool {
    ch != ESC && ch != CR && ch != LF && ch != BACKSPACE
}

proof fn lemma_feed_push(m: ConsoleView, s: Seq<u8>, k: int)
    requires
        0 <= k < s.len(),
    ensures
        feed(m, s.take(k + 1)) == step(feed(m, s.take(k)), s[k]),
{
    assert(s.take(k + 1).drop_last() =~= s.take(k));
}

proof fn lemma_plain_prefix(m: ConsoleView, s: Seq<u8>, k: int)
    requires
        console_inv(m),
        is_bound(m),
        m.state == VgaTextState::PutChar,
        m.x == 0,
        s.len() == VGA_BUFFER_WIDTH,
        forall|i: int| 0 <= i < s.len() ==> is_plain(#[trigger] s[i]),
        0 <= k < VGA_BUFFER_WIDTH,
    ensures
        feed(m, s.take(k)) == (ConsoleView {
            x: k,
            cells: Seq::new(
                m.cells.len(),
                |j: int|
                    if cell_index(m.y, 0) <= j < cell_index(m.y, k) {
                        (s[j - cell_index(m.y, 0)], m.attr)
                    } else {
                        m.cells[j]
                    },
            ),
            ..m
        }),
    decreases k,
{
    if k == 0 {
        let e = ConsoleView {
            x: 0,
            cells: Seq::new(
                m.cells.len(),
                |j: int|
                    if cell_index(m.y, 0) <= j < cell_index(m.y, 0) {
                        (s[j - cell_index(m.y, 0)], m.attr)
                    } else {
                        m.cells[j]
                    },
            ),
            ..m
        };
        assert(s.take(0).len() == 0);
        assert(e.cells =~= m.cells);
    } else {
        lemma_plain_prefix(m, s, k - 1);
        lemma_feed_push(m, s, k - 1);
        let prev = feed(m, s.take(k - 1));
        let e = ConsoleView {
            x: k,
            cells: Seq::new(
                m.cells.len(),
                |j: int|
                    if cell_index(m.y, 0) <= j < cell_index(m.y, k) {
                        (s[j - cell_index(m.y, 0)], m.attr)
                    } else {
                        m.cells[j]
                    },
            ),
            ..m
        };
        assert(is_plain(s[k - 1]));
        assert(step(prev, s[k - 1]).cells =~= e.cells);
    }
}

/// Writing a full row of plain bytes from column 0 of a row above the
/// bottom one fills that row in order with the current attribute, leaves
/// every other cell as it was, and leaves the cursor at column 0 of the
/// next row.
pub proof fn lemma_full_row(m: ConsoleView, s: Seq<u8>)
    requires
        console_inv(m),
        is_bound(m),
        m.state == VgaTextState::PutChar,
        m.x == 0,
        m.y + 1 < VGA_BUFFER_HEIGHT,
        s.len() == VGA_BUFFER_WIDTH,
        forall|i: int| 0 <= i < s.len() ==> is_plain(#[trigger] s[i]),
    ensures
        feed(m, s).x == 0,
        feed(m, s).y == m.y + 1,
        feed(m, s).attr == m.attr,
        feed(m, s).state == VgaTextState::PutChar,
        forall|c: int|
            0 <= c < VGA_BUFFER_WIDTH ==> #[trigger] feed(m, s).cells[cell_index(m.y, c)] == (
            s[c],
            m.attr,
        ),
        forall|j: int|
            0 <= j < m.cells.len() && !(cell_index(m.y, 0) <= j < cell_index(m.y + 1, 0))
                ==> #[trigger] feed(m, s).cells[j] == m.cells[j],
        feed(m, s).cells.len() == m.cells.len(),
{
    let k = VGA_BUFFER_WIDTH - 1;
    lemma_plain_prefix(m, s, k);
    lemma_feed_push(m, s, k);
    assert(s.take(k + 1) =~= s);
    assert(is_plain(s[k]));
}

/// The bytes of an unfinished sequence: `ESC`, then, when `bracket`, a `[`
/// and `digits`.
pub open spec fn open_sequence(bracket: bool, digits: Seq<u8>) -> Seq<u8> {
    if bracket {
        seq![ESC, LEFT_BRACKET].add(digits)
    } else {
        seq![ESC]
    }
}

proof fn lemma_open_prefix(m: ConsoleView, bracket: bool, digits: Seq<u8>, k: int)
    requires
        m.state == VgaTextState::PutChar || m.state == VgaTextState::SetColor(VgaTextSetColor::End),
        bracket || digits.len() == 0,
        forall|i: int| 0 <= i < digits.len() ==> is_digit(#[trigger] digits[i]),
        0 <= k <= open_sequence(bracket, digits).len(),
    ensures
        feed(m, open_sequence(bracket, digits).take(k)) == (ConsoleView {
            state: feed(m, open_sequence(bracket, digits).take(k)).state,
            ..m
        }),
        k == 0 ==> feed(m, open_sequence(bracket, digits).take(k)).state == m.state,
        k > 0 ==> feed(m, open_sequence(bracket, digits).take(k)).state is SetColor,
        k > 0 ==> !(feed(m, open_sequence(bracket, digits).take(k)).state
            == VgaTextState::SetColor(VgaTextSetColor::End)),
        k == 1 ==> feed(m, open_sequence(bracket, digits).take(k)).state == VgaTextState::SetColor(
            VgaTextSetColor::Start,
        ),
    decreases k,
{
    let p = open_sequence(bracket, digits);
    if k == 0 {
        assert(p.take(0).len() == 0);
    } else {
        lemma_open_prefix(m, bracket, digits, k - 1);
        lemma_feed_push(m, p, k - 1);
        if k >= 3 {
            assert(p[k - 1] == digits[k - 3]);
            assert(is_digit(digits[k - 3]));
        }
    }
}

/// A sequence that is abandoned leaves no trace: while `ESC`, an optional
/// `[` and digits are read, the cursor, attribute and cells stay as they
/// were; and a following byte that is no digit, `[`, `m` or `ESC` ends the
/// sequence and is printed exactly as it would have been without it.
pub proof fn lemma_malformed_sequence_aborts(
    m: ConsoleView,
    bracket: bool,
    digits: Seq<u8>,
    t: u8,
)
    requires
        m.state == VgaTextState::PutChar || m.state == VgaTextState::SetColor(VgaTextSetColor::End),
        bracket || digits.len() == 0,
        forall|i: int| 0 <= i < digits.len() ==> is_digit(#[trigger] digits[i]),
        !is_digit(t),
        t != LEFT_BRACKET,
        t != SGR_END,
        t != ESC,
    ensures
        forall|k: int|
            0 <= k <= open_sequence(bracket, digits).len() ==> {
                let f = #[trigger] feed(m, open_sequence(bracket, digits).take(k));
                f.x == m.x && f.y == m.y && f.attr == m.attr && f.cells == m.cells
            },
        feed(m, open_sequence(bracket, digits).push(t)) == step(m, t),
{
    let p = open_sequence(bracket, digits);
    assert forall|k: int| 0 <= k <= p.len() implies {
        let f = #[trigger] feed(m, p.take(k));
        f.x == m.x && f.y == m.y && f.attr == m.attr && f.cells == m.cells
    } by {
        lemma_open_prefix(m, bracket, digits, k);
    }
    lemma_open_prefix(m, bracket, digits, p.len() as int);
    assert(p.take(p.len() as int) =~= p);
    assert(p.push(t).drop_last() =~= p);
    let f = feed(m, p);
    assert(interpret(f, t) == (ConsoleView { state: VgaTextState::PutChar, ..m }));
    assert(interpret(m, t) == (ConsoleView { state: VgaTextState::PutChar, ..m }));
}

/// `ESC [ 9 2 m` read outside a sequence selects light green on black and
/// touches nothing else; the interpreter then passes the next byte other
/// than `ESC` through to be printed in that attribute.
pub proof fn lemma_bright_green_sequence(m: ConsoleView, t: u8)
    requires
        m.state == VgaTextState::PutChar || m.state == VgaTextState::SetColor(VgaTextSetColor::End),
        t != ESC,
    ensures
        feed(m, seq![ESC, LEFT_BRACKET, 0x39u8, 0x32u8, SGR_END]) == (ConsoleView {
            attr: pack(VgaTextColor::LightGreen, VgaTextColor::Black),
            state: VgaTextState::SetColor(VgaTextSetColor::End),
            ..m
        }),
        interpret(feed(m, seq![ESC, LEFT_BRACKET, 0x39u8, 0x32u8, SGR_END]), t) == (ConsoleView {
            attr: pack(VgaTextColor::LightGreen, VgaTextColor::Black),
            state: VgaTextState::PutChar,
            ..m
        }),
{
    let s = seq![ESC, LEFT_BRACKET, 0x39u8, 0x32u8, SGR_END];
    assert(s.take(0).len() == 0);
    lemma_feed_push(m, s, 0);
    lemma_feed_push(m, s, 1);
    lemma_feed_push(m, s, 2);
    lemma_feed_push(m, s, 3);
    lemma_feed_push(m, s, 4);
    assert(s.take(5) =~= s);
    lemma_sgr_bright_green();
}

} // verus!
