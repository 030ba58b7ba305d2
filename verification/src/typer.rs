//! The typing window: a screen of fixed-width character cells with a
//! caret, edited by keys and typed characters.
use vstd::prelude::*;

verus! {

/// Virtual keys the typing window acts on.
pub const VK_PRIOR: u16 = 0x21;
pub const VK_NEXT: u16 = 0x22;
pub const VK_END: u16 = 0x23;
pub const VK_HOME: u16 = 0x24;
pub const VK_LEFT: u16 = 0x25;
pub const VK_UP: u16 = 0x26;
pub const VK_RIGHT: u16 = 0x27;
pub const VK_DOWN: u16 = 0x28;
pub const VK_DELETE: u16 = 0x2E;

/// A blank cell.
pub const SPACE: u16 = 0x20;

/// The screen and caret.
#[derive(Debug)]
pub struct Typer {
    /// Columns of the screen.
    pub cx_buffer: i32,
    /// Rows of the screen.
    pub cy_buffer: i32,
    /// Caret column.
    pub x_caret: i32,
    /// Caret row.
    pub y_caret: i32,
    /// The cells, row by row.
    pub buffer: Vec<u16>,
    /// Width of a character cell in pixels.
    pub cx_char: i32,
    /// Height of a character cell in pixels.
    pub cy_char: i32,
}

/// What has to be drawn again after an edit.
#[derive(Clone, Copy, PartialEq, Eq, Structural, Debug)]
pub enum TyperPaint {
    /// The one cell at this column and row.
    Cell { x: i32, y: i32 },
    /// The cells of this row from this column to the end of the row.
    RowFrom { x: i32, y: i32 },
    /// The whole window.
    Everything,
}

/// Caret column, caret row and cells: the part of the window that edits
/// change.
pub type Screen = (int, int, Seq<u16>);

/// The caret position after the caret moves one cell on: to the next row
/// at the end of a row, and back to the top after the last row.
pub open spec fn advance(cols: int, rows: int, x: int, y: int) -> (int, int) {
    if x + 1 >= cols {
        (0, if y + 1 >= rows { 0 } else { y + 1 })
    } else {
        (x + 1, y)
    }
}

/// A character written at the caret, which then moves on.
pub open spec fn put(cols: int, rows: int, s: Screen, c: u16) -> Screen {
    let (x, y) = advance(cols, rows, s.0, s.1);
    (x, y, s.2.update(s.1 * cols + s.0, c))
}

/// The character at the caret removed: the rest of its row moves one cell
/// left and a blank fills the row's last cell.
pub open spec fn delete(cols: int, s: Screen) -> Screen {
    let cells = s.2;
    (s.0, s.1, Seq::new(cells.len(), |j: int|
        if s.1 * cols + s.0 <= j < s.1 * cols + cols - 1 {
            cells[j + 1]
        } else if j == s.1 * cols + cols - 1 {
            SPACE
        } else {
            cells[j]
        }))
}

/// Blanks typed until the caret stands on a multiple of eight (at least
/// one blank).
pub open spec fn tab(cols: int, rows: int, s: Screen) -> Screen
    decreases cols - s.0,
{
    let s1 = put(cols, rows, s, SPACE);
    if s1.0 % 8 == 0 || s.0 + 1 >= cols || s.0 < 0 {
        s1
    } else {
        tab(cols, rows, s1)
    }
}

/// The cells that `tab` draws, in order.
pub open spec fn tab_paints(cols: int, rows: int, s: Screen) -> Seq<TyperPaint>
    decreases cols - s.0,
{
    let s1 = put(cols, rows, s, SPACE);
    let here = seq![TyperPaint::Cell { x: s.0 as i32, y: s.1 as i32 }];
    if s1.0 % 8 == 0 || s.0 + 1 >= cols || s.0 < 0 {
        here
    } else {
        here + tab_paints(cols, rows, s1)
    }
}

/// The screen after one typed character with code `c`: Backspace deletes
/// the character before the caret, Tab types blanks to the next tab stop,
/// Line feed does nothing, Return moves to the start of the next row,
/// Escape blanks the screen; any other code is written at the caret.
pub open spec fn typed(cols: int, rows: int, s: Screen, c: u32) -> Screen {
    if c == 8 {
        if s.0 > 0 { delete(cols, (s.0 - 1, s.1, s.2)) } else { s }
    } else if c == 9 {
        tab(cols, rows, s)
    } else if c == 10 {
        s
    } else if c == 13 {
        (0, if s.1 + 1 >= rows { 0 } else { s.1 + 1 }, s.2)
    } else if c == 27 {
        (0, 0, Seq::new(s.2.len(), |j: int| SPACE))
    } else {
        put(cols, rows, s, (c % 0x10000) as u16)
    }
}

/// What one typed character makes the window draw.
pub open spec fn typed_paints(cols: int, rows: int, s: Screen, c: u32) -> Seq<TyperPaint> {
    if c == 8 {
        if s.0 > 0 { seq![TyperPaint::RowFrom { x: (s.0 - 1) as i32, y: s.1 as i32 }] } else { seq![] }
    } else if c == 9 {
        tab_paints(cols, rows, s)
    } else if c == 10 || c == 13 {
        seq![]
    } else if c == 27 {
        seq![TyperPaint::Everything]
    } else {
        seq![TyperPaint::Cell { x: s.0 as i32, y: s.1 as i32 }]
    }
}

/// The screen after the same character typed `n` times.
pub open spec fn typed_n(cols: int, rows: int, s: Screen, c: u32, n: nat) -> Screen
    decreases n,
{
    if n == 0 { s } else { typed(cols, rows, typed_n(cols, rows, s, c, (n - 1) as nat), c) }
}

/// What the window draws when the same character is typed `n` times.
pub open spec fn typed_n_paints(cols: int, rows: int, s: Screen, c: u32, n: nat) -> Seq<TyperPaint>
    decreases n,
{
    if n == 0 {
        seq![]
    } else {
        typed_n_paints(cols, rows, s, c, (n - 1) as nat)
            + typed_paints(cols, rows, typed_n(cols, rows, s, c, (n - 1) as nat), c)
    }
}

/// The screen after a key: Home and End move to the ends of the row, Page
/// Up and Page Down to the first and last row, the arrows one cell (never
/// off the screen), Delete removes the character at the caret.
pub open spec fn keyed(cols: int, rows: int, s: Screen, vk: u16) -> Screen {
    if vk == VK_HOME {
        (0, s.1, s.2)
    } else if vk == VK_END {
        (cols - 1, s.1, s.2)
    } else if vk == VK_PRIOR {
        (s.0, 0, s.2)
    } else if vk == VK_NEXT {
        (s.0, rows - 1, s.2)
    } else if vk == VK_LEFT {
        (if s.0 - 1 > 0 { s.0 - 1 } else { 0 }, s.1, s.2)
    } else if vk == VK_RIGHT {
        (if s.0 + 1 < cols - 1 { s.0 + 1 } else { cols - 1 }, s.1, s.2)
    } else if vk == VK_UP {
        (s.0, if s.1 - 1 > 0 { s.1 - 1 } else { 0 }, s.2)
    } else if vk == VK_DOWN {
        (s.0, if s.1 + 1 < rows - 1 { s.1 + 1 } else { rows - 1 }, s.2)
    } else if vk == VK_DELETE {
        delete(cols, s)
    } else {
        s
    }
}

/// The number of columns or rows that fit in a client area of `client`
/// pixels (not negative): at least one.
pub open spec fn cells_across(client: int, char_size: int) -> int {
    if char_size > 0 && client / char_size > 1 { client / char_size } else { 1 }
}

impl Typer {
    /// Caret column, caret row and cells.
    pub open spec fn screen(&self) -> Screen {
        (self.x_caret as int, self.y_caret as int, self.buffer@)
    }

    /// The screen is as large as its cells, the caret is on it, and the
    /// caret's pixel position fits in 16 bits.
    pub open spec fn wf(&self) -> bool {
        &&& 1 <= self.cx_buffer
        &&& 1 <= self.cy_buffer
        &&& self.cx_buffer * self.cy_buffer <= i32::MAX
        &&& self.buffer@.len() == self.cx_buffer * self.cy_buffer
        &&& 0 <= self.x_caret < self.cx_buffer
        &&& 0 <= self.y_caret < self.cy_buffer
        &&& (self.cx_char > 0 || self.cx_buffer == 1)
        &&& (self.cy_char > 0 || self.cy_buffer == 1)
        &&& (self.cx_char > 0 ==> (self.cx_buffer - 1) * self.cx_char <= 65535)
        &&& (self.cy_char > 0 ==> (self.cy_buffer - 1) * self.cy_char <= 65535)
    }

    /// A blank screen that fills the client area, caret at the top left.
    pub fn new(cx_client: i32, cy_client: i32, cx_char: i32, cy_char: i32) -> (t: Typer)
        requires
            0 <= cx_client <= 65535,
            0 <= cy_client <= 65535,
            cx_char != 0,
            cy_char != 0,
            cells_across(cx_client as int, cx_char as int) * cells_across(cy_client as int, cy_char as int)
                <= i32::MAX,
        ensures
            t.wf(),
            t.cx_buffer == cells_across(cx_client as int, cx_char as int),
            t.cy_buffer == cells_across(cy_client as int, cy_char as int),
            t.cx_char == cx_char,
            t.cy_char == cy_char,
            t.screen() == (0int, 0int, Seq::new((t.cx_buffer * t.cy_buffer) as nat, |j: int| SPACE)),
    {
        // A negative cell size makes the quotient 0 or less: one cell.
        let qx = if cx_char > 0 { cx_client / cx_char } else { 0 };
        let qy = if cy_char > 0 { cy_client / cy_char } else { 0 };
        let cx_buffer = if qx > 1 { qx } else { 1 };
        let cy_buffer = if qy > 1 { qy } else { 1 };
        proof {
            lemma_cells_fit(cx_client as int, cx_char as int);
            lemma_cells_fit(cy_client as int, cy_char as int);
        }
        let n = cx_buffer * cy_buffer;
        let mut buffer: Vec<u16> = Vec::new();
        let mut i: i32 = 0;
        while i < n
            invariant
                0 <= i <= n,
                buffer@ == Seq::new(i as nat, |j: int| SPACE),
            decreases n - i,
        {
            buffer.push(SPACE);
            i = i + 1;
            assert(buffer@ =~= Seq::new(i as nat, |j: int| SPACE));
        }
        Typer { cx_buffer, cy_buffer, x_caret: 0, y_caret: 0, buffer, cx_char, cy_char }
    }

    /// Where the caret goes on the window, in pixels.
    pub fn caret_pixels(&self) -> (r: (i32, i32))
        requires
            self.wf(),
        ensures
            r.0 == self.x_caret * self.cx_char,
            r.1 == self.y_caret * self.cy_char,
    {
        proof {
            lemma_pixel_fits(self.x_caret as int, self.cx_buffer as int, self.cx_char as int);
            lemma_pixel_fits(self.y_caret as int, self.cy_buffer as int, self.cy_char as int);
        }
        (self.x_caret * self.cx_char, self.y_caret * self.cy_char)
    }

    /// The character at the caret removed.
    fn delete_at_caret(&mut self)
        requires
            old(self).wf(),
        ensures
            final(self).wf(),
            final(self).cx_buffer == old(self).cx_buffer,
            final(self).cy_buffer == old(self).cy_buffer,
            final(self).cx_char == old(self).cx_char,
            final(self).cy_char == old(self).cy_char,
            final(self).screen() == delete(old(self).cx_buffer as int, old(self).screen()),
    {
        let cols = self.cx_buffer;
        proof {
            assert(0 <= self.y_caret * cols && self.y_caret * cols + cols <= self.cx_buffer * self.cy_buffer) by (nonlinear_arith)
                requires 0 <= self.y_caret < self.cy_buffer, cols >= 1, cols == self.cx_buffer;
        }
        let row = self.y_caret * cols;
        let ghost start = self.buffer@;
        let mut x = self.x_caret;
        while x < cols - 1
            invariant
                self.wf(),
                self.cx_buffer == cols,
                self.x_caret <= x <= cols - 1,
                row == self.y_caret * cols,
                row + cols <= self.buffer@.len(),
                self.buffer@.len() == start.len(),
                self.screen().0 == old(self).x_caret,
                self.screen().1 == old(self).y_caret,
                old(self).cx_buffer == cols,
                old(self).cy_buffer == self.cy_buffer,
                old(self).cx_char == self.cx_char,
                old(self).cy_char == self.cy_char,
                start == old(self).buffer@,
                forall|j: int| 0 <= j < start.len() ==> #[trigger] self.buffer@[j] == (
                    if row + self.x_caret <= j < row + x { start[j + 1] } else { start[j] }),
            decreases cols - x,
        {
            let i = (row + x) as usize;
            let c = self.buffer[i + 1];
            self.buffer.set(i, c);
            x = x + 1;
        }
        let last = (row + cols - 1) as usize;
        self.buffer.set(last, SPACE);
        assert(self.screen() =~= delete(cols as int, old(self).screen()));
    }

    /// A character written at the caret, which then moves on.
    fn put_char(&mut self, c: u16)
        requires
            old(self).wf(),
        ensures
            final(self).wf(),
            final(self).cx_buffer == old(self).cx_buffer,
            final(self).cy_buffer == old(self).cy_buffer,
            final(self).cx_char == old(self).cx_char,
            final(self).cy_char == old(self).cy_char,
            final(self).screen() == put(old(self).cx_buffer as int, old(self).cy_buffer as int, old(self).screen(), c),
    {
        proof {
            assert(self.y_caret * self.cx_buffer + self.x_caret < self.cx_buffer * self.cy_buffer) by (nonlinear_arith)
                requires 0 <= self.y_caret < self.cy_buffer, 0 <= self.x_caret < self.cx_buffer;
            assert(0 <= self.y_caret * self.cx_buffer) by (nonlinear_arith)
                requires self.y_caret >= 0, self.cx_buffer >= 1;
        }
        let i = (self.y_caret * self.cx_buffer + self.x_caret) as usize;
        self.buffer.set(i, c);
        self.x_caret = self.x_caret + 1;
        if self.x_caret == self.cx_buffer {
            self.x_caret = 0;
            self.y_caret = self.y_caret + 1;
            if self.y_caret == self.cy_buffer {
                self.y_caret = 0;
            }
        }
    }

    /// Blanks typed until the caret stands on a multiple of eight.
    fn tab_stop(&mut self, paints: &mut Vec<TyperPaint>)
        requires
            old(self).wf(),
        ensures
            final(self).wf(),
            final(self).cx_buffer == old(self).cx_buffer,
            final(self).cy_buffer == old(self).cy_buffer,
            final(self).cx_char == old(self).cx_char,
            final(self).cy_char == old(self).cy_char,
            final(self).screen() == tab(old(self).cx_buffer as int, old(self).cy_buffer as int, old(self).screen()),
            final(paints)@ == old(paints)@ + tab_paints(old(self).cx_buffer as int, old(self).cy_buffer as int, old(self).screen()),
    {
        let ghost cols = self.cx_buffer as int;
        let ghost rows = self.cy_buffer as int;
        let ghost start = self.screen();
        let ghost p0 = paints@;
        let mut done = false;
        while !done
            invariant
                self.wf(),
                self.cx_buffer == cols,
                self.cy_buffer == rows,
                self.cx_buffer == old(self).cx_buffer,
                self.cy_buffer == old(self).cy_buffer,
                self.cx_char == old(self).cx_char,
                self.cy_char == old(self).cy_char,
                start == old(self).screen(),
                p0 == old(paints)@,
                !done ==> tab(cols, rows, self.screen()) == tab(cols, rows, start),
                !done ==> paints@ + tab_paints(cols, rows, self.screen()) == p0 + tab_paints(cols, rows, start),
                done ==> self.screen() == tab(cols, rows, start),
                done ==> paints@ == p0 + tab_paints(cols, rows, start),
            decreases (if done { 0 } else { cols - self.x_caret + 1 }),
        {
            let ghost s = self.screen();
            let x = self.x_caret;
            let y = self.y_caret;
            paints.push(TyperPaint::Cell { x, y });
            self.put_char(SPACE);
            let ghost here = seq![TyperPaint::Cell { x: s.0 as i32, y: s.1 as i32 }];
            if self.x_caret % 8 == 0 {
                done = true;
                assert(paints@ =~= p0 + tab_paints(cols, rows, start)) by {
                    assert(tab_paints(cols, rows, s) == here);
                    assert(paints@ =~= (paints@.drop_last()) + here);
                }
            } else {
                assert(tab_paints(cols, rows, s) == here + tab_paints(cols, rows, self.screen()));
                assert(paints@ + tab_paints(cols, rows, self.screen()) =~= p0 + tab_paints(cols, rows, start)) by {
                    assert(paints@ =~= paints@.drop_last().push(TyperPaint::Cell { x, y }));
                }
            }
        }
    }

    /// Blanks every cell and puts the caret at the top left.
    fn clear(&mut self)
        requires
            old(self).wf(),
        ensures
            final(self).wf(),
            final(self).cx_buffer == old(self).cx_buffer,
            final(self).cy_buffer == old(self).cy_buffer,
            final(self).cx_char == old(self).cx_char,
            final(self).cy_char == old(self).cy_char,
            final(self).screen() == (0int, 0int, Seq::new(old(self).buffer@.len(), |j: int| SPACE)),
    {
        let n = self.buffer.len();
        let mut i: usize = 0;
        while i < n
            invariant
                self.wf(),
                n == self.buffer@.len(),
                self.cx_buffer == old(self).cx_buffer,
                self.cy_buffer == old(self).cy_buffer,
                self.cx_char == old(self).cx_char,
                self.cy_char == old(self).cy_char,
                self.x_caret == old(self).x_caret,
                self.y_caret == old(self).y_caret,
                n == old(self).buffer@.len(),
                i <= n,
                forall|j: int| 0 <= j < i ==> #[trigger] self.buffer@[j] == SPACE,
            decreases n - i,
        {
            self.buffer.set(i, SPACE);
            i = i + 1;
        }
        self.x_caret = 0;
        self.y_caret = 0;
        assert(self.screen() =~= (0int, 0int, Seq::new(old(self).buffer@.len(), |j: int| SPACE)));
    }

    /// One typed character.
    fn type_one(&mut self, code: u32, paints: &mut Vec<TyperPaint>)
        requires
            old(self).wf(),
        ensures
            final(self).wf(),
            final(self).cx_buffer == old(self).cx_buffer,
            final(self).cy_buffer == old(self).cy_buffer,
            final(self).cx_char == old(self).cx_char,
            final(self).cy_char == old(self).cy_char,
            final(self).screen() == typed(old(self).cx_buffer as int, old(self).cy_buffer as int, old(self).screen(), code),
            final(paints)@ == old(paints)@ + typed_paints(old(self).cx_buffer as int, old(self).cy_buffer as int, old(self).screen(), code),
    {
        let ghost cols = self.cx_buffer as int;
        let ghost rows = self.cy_buffer as int;
        if code == 8 {
            if self.x_caret > 0 {
                self.x_caret = self.x_caret - 1;
                let x = self.x_caret;
                let y = self.y_caret;
                self.delete_at_caret();
                paints.push(TyperPaint::RowFrom { x, y });
            }
        } else if code == 9 {
            self.tab_stop(paints);
        } else if code == 10 {
        } else if code == 13 {
            self.x_caret = 0;
            self.y_caret = self.y_caret + 1;
            if self.y_caret == self.cy_buffer {
                self.y_caret = 0;
            }
        } else if code == 27 {
            self.clear();
            paints.push(TyperPaint::Everything);
        } else {
            let x = self.x_caret;
            let y = self.y_caret;
            self.put_char((code % 0x10000) as u16);
            paints.push(TyperPaint::Cell { x, y });
        }
        assert(paints@ =~= old(paints)@ + typed_paints(cols, rows, old(self).screen(), code));
    }

    /// Applies a typed character (`WM_CHAR`) `repeat` times: Backspace
    /// deletes the character before the caret, Tab types blanks to the next
    /// multiple of eight, Line feed does nothing, Return moves to the start
    /// of the next row, Escape blanks the screen, and any other code is
    /// written at the caret (its low 16 bits), which moves on. Returns what
    /// has to be drawn again, in order.
    pub fn char_typed(&mut self, code: u32, repeat: i32) -> (paints: Vec<TyperPaint>)
        requires
            old(self).wf(),
        ensures
            final(self).wf(),
            final(self).cx_buffer == old(self).cx_buffer,
            final(self).cy_buffer == old(self).cy_buffer,
            final(self).cx_char == old(self).cx_char,
            final(self).cy_char == old(self).cy_char,
            final(self).screen() == typed_n(old(self).cx_buffer as int, old(self).cy_buffer as int, old(self).screen(), code,
                if repeat > 0 { repeat as nat } else { 0 }),
            paints@ == typed_n_paints(old(self).cx_buffer as int, old(self).cy_buffer as int, old(self).screen(), code,
                if repeat > 0 { repeat as nat } else { 0 }),
    {
        let ghost cols = self.cx_buffer as int;
        let ghost rows = self.cy_buffer as int;
        let ghost start = self.screen();
        let mut paints: Vec<TyperPaint> = Vec::new();
        let mut i: i32 = 0;
        while i < repeat
            invariant
                self.wf(),
                self.cx_buffer == cols,
                self.cy_buffer == rows,
                self.cx_buffer == old(self).cx_buffer,
                self.cy_buffer == old(self).cy_buffer,
                self.cx_char == old(self).cx_char,
                self.cy_char == old(self).cy_char,
                start == old(self).screen(),
                0 <= i,
                repeat > 0 ==> i <= repeat,
                repeat <= 0 ==> i == 0,
                self.screen() == typed_n(cols, rows, start, code, i as nat),
                paints@ == typed_n_paints(cols, rows, start, code, i as nat),
            decreases repeat - i,
        {
            self.type_one(code, &mut paints);
            i = i + 1;
        }
        paints
    }

    /// Applies a key (`WM_KEYDOWN`). Delete makes the rest of the row be
    /// drawn again.
    pub fn key_down(&mut self, vk: u16) -> (paint: Option<TyperPaint>)
        requires
            old(self).wf(),
        ensures
            final(self).wf(),
            final(self).cx_buffer == old(self).cx_buffer,
            final(self).cy_buffer == old(self).cy_buffer,
            final(self).cx_char == old(self).cx_char,
            final(self).cy_char == old(self).cy_char,
            final(self).screen() == keyed(old(self).cx_buffer as int, old(self).cy_buffer as int, old(self).screen(), vk),
            paint == (if vk == VK_DELETE {
                Some(TyperPaint::RowFrom { x: old(self).x_caret, y: old(self).y_caret })
            } else {
                None::<TyperPaint>
            }),
    {
        if vk == VK_HOME {
            self.x_caret = 0;
        } else if vk == VK_END {
            self.x_caret = self.cx_buffer - 1;
        } else if vk == VK_PRIOR {
            self.y_caret = 0;
        } else if vk == VK_NEXT {
            self.y_caret = self.cy_buffer - 1;
        } else if vk == VK_LEFT {
            self.x_caret = if self.x_caret - 1 > 0 { self.x_caret - 1 } else { 0 };
        } else if vk == VK_RIGHT {
            self.x_caret = if self.x_caret + 1 < self.cx_buffer - 1 { self.x_caret + 1 } else { self.cx_buffer - 1 };
        } else if vk == VK_UP {
            self.y_caret = if self.y_caret - 1 > 0 { self.y_caret - 1 } else { 0 };
        } else if vk == VK_DOWN {
            self.y_caret = if self.y_caret + 1 < self.cy_buffer - 1 { self.y_caret + 1 } else { self.cy_buffer - 1 };
        } else if vk == VK_DELETE {
            let x = self.x_caret;
            let y = self.y_caret;
            self.delete_at_caret();
            return Some(TyperPaint::RowFrom { x, y });
        }
        None
    }
}

/// The caret is on a screen of `cols` by `rows` cells.
pub open spec fn screen_ok(cols: int, rows: int, s: Screen) -> bool {
    &&& 1 <= cols
    &&& 1 <= rows
    &&& 0 <= s.0 < cols
    &&& 0 <= s.1 < rows
    &&& s.2.len() == cols * rows
    &&& cols * rows <= i32::MAX
}

/// A cell or row that has to be drawn again lies on the screen.
pub open spec fn paint_on_screen(cols: int, rows: int, p: TyperPaint) -> bool {
    match p {
        TyperPaint::Cell { x, y } => 0 <= x < cols && 0 <= y < rows,
        TyperPaint::RowFrom { x, y } => 0 <= x < cols && 0 <= y < rows,
        TyperPaint::Everything => true,
    }
}

proof fn lemma_index_ok(cols: int, rows: int, x: int, y: int)
    requires
        0 <= x < cols,
        0 <= y < rows,
    ensures
        0 <= y * cols,
        y * cols + cols <= cols * rows,
        0 <= y * cols + x < cols * rows,
{
    assert(0 <= y * cols && y * cols + cols <= cols * rows) by (nonlinear_arith)
        requires 0 <= x < cols, 0 <= y < rows;
}

proof fn lemma_small_le(cols: int, rows: int)
    requires
        1 <= cols,
        1 <= rows,
        cols * rows <= i32::MAX,
    ensures
        cols <= i32::MAX,
        rows <= i32::MAX,
{
    assert(cols <= cols * rows && rows <= cols * rows) by (nonlinear_arith)
        requires 1 <= cols, 1 <= rows;
}

proof fn lemma_put_ok(cols: int, rows: int, s: Screen, c: u16)
    requires
        screen_ok(cols, rows, s),
    ensures
        screen_ok(cols, rows, put(cols, rows, s, c)),
{
    lemma_index_ok(cols, rows, s.0, s.1);
}

proof fn lemma_tab_ok(cols: int, rows: int, s: Screen)
    requires
        screen_ok(cols, rows, s),
    ensures
        screen_ok(cols, rows, tab(cols, rows, s)),
        forall|i: int| 0 <= i < tab_paints(cols, rows, s).len()
            ==> paint_on_screen(cols, rows, #[trigger] tab_paints(cols, rows, s)[i]),
    decreases cols - s.0,
{
    let s1 = put(cols, rows, s, SPACE);
    lemma_put_ok(cols, rows, s, SPACE);
    lemma_small_le(cols, rows);
    let here = seq![TyperPaint::Cell { x: s.0 as i32, y: s.1 as i32 }];
    if s1.0 % 8 == 0 || s.0 + 1 >= cols || s.0 < 0 {
    } else {
        lemma_tab_ok(cols, rows, s1);
        let rest = tab_paints(cols, rows, s1);
        assert forall|i: int| 0 <= i < (here + rest).len()
            implies paint_on_screen(cols, rows, #[trigger] (here + rest)[i]) by {
            if i > 0 {
                assert((here + rest)[i] == rest[i - 1]);
            }
        }
    }
}

proof fn lemma_typed_ok(cols: int, rows: int, s: Screen, c: u32)
    requires
        screen_ok(cols, rows, s),
    ensures
        screen_ok(cols, rows, typed(cols, rows, s, c)),
        forall|i: int| 0 <= i < typed_paints(cols, rows, s, c).len()
            ==> paint_on_screen(cols, rows, #[trigger] typed_paints(cols, rows, s, c)[i]),
{
    lemma_small_le(cols, rows);
    lemma_index_ok(cols, rows, s.0, s.1);
    if c == 9 {
        lemma_tab_ok(cols, rows, s);
    } else if c == 8 && s.0 > 0 {
        lemma_index_ok(cols, rows, s.0 - 1, s.1);
    }
}

/// Typed characters keep the caret on the screen and the screen its size,
/// and whatever they make the window draw again lies on the screen.
pub proof fn law_typing_stays_on_screen(cols: int, rows: int, s: Screen, c: u32, n: nat)
    requires
        screen_ok(cols, rows, s),
    ensures
        screen_ok(cols, rows, typed_n(cols, rows, s, c, n)),
        forall|i: int| 0 <= i < typed_n_paints(cols, rows, s, c, n).len()
            ==> paint_on_screen(cols, rows, #[trigger] typed_n_paints(cols, rows, s, c, n)[i]),
    decreases n,
{
    if n > 0 {
        let m = (n - 1) as nat;
        law_typing_stays_on_screen(cols, rows, s, c, m);
        let t = typed_n(cols, rows, s, c, m);
        lemma_typed_ok(cols, rows, t, c);
        let a = typed_n_paints(cols, rows, s, c, m);
        let b = typed_paints(cols, rows, t, c);
        assert forall|i: int| 0 <= i < (a + b).len()
            implies paint_on_screen(cols, rows, #[trigger] (a + b)[i]) by {
            if i < a.len() {
                assert((a + b)[i] == a[i]);
            } else {
                assert((a + b)[i] == b[i - a.len()]);
            }
        }
    }
}

/// Keys keep the caret on the screen and the screen its size.
pub proof fn law_keys_stay_on_screen(cols: int, rows: int, s: Screen, vk: u16)
    requires
        screen_ok(cols, rows, s),
    ensures
        screen_ok(cols, rows, keyed(cols, rows, s, vk)),
{
    lemma_index_ok(cols, rows, s.0, s.1);
}

/// A character other than Backspace, Tab, Line feed, Return and Escape is
/// written at the caret and changes no other cell.
pub proof fn law_char_written_at_caret(cols: int, rows: int, s: Screen, c: u32)
    requires
        screen_ok(cols, rows, s),
        c != 8 && c != 9 && c != 10 && c != 13 && c != 27,
    ensures
        typed(cols, rows, s, c).2[s.1 * cols + s.0] == (c % 0x10000) as u16,
        forall|j: int| 0 <= j < s.2.len() && j != s.1 * cols + s.0
            ==> #[trigger] typed(cols, rows, s, c).2[j] == s.2[j],
{
    assert(0 <= s.1 * cols + s.0 < cols * rows) by (nonlinear_arith)
        requires 0 <= s.0 < cols, 0 <= s.1 < rows;
}

/// Escape blanks every cell and puts the caret at the top left.
pub proof fn law_escape_blanks(cols: int, rows: int, s: Screen)
    ensures
        typed(cols, rows, s, 27) == (0int, 0int, Seq::new(s.2.len(), |j: int| SPACE)),
{
}

/// Delete changes only the caret's row, from the caret on: the cells after
/// the caret move one to the left and the row ends in a blank.
pub proof fn law_delete_shifts_row(cols: int, rows: int, s: Screen)
    requires
        screen_ok(cols, rows, s),
    ensures
        ({
            let t = keyed(cols, rows, s, VK_DELETE);
            let row = s.1 * cols;
            &&& t.0 == s.0 && t.1 == s.1 && t.2.len() == s.2.len()
            &&& forall|j: int| 0 <= j < s.2.len() && !(row + s.0 <= j < row + cols)
                ==> #[trigger] t.2[j] == s.2[j]
            &&& forall|j: int| row + s.0 <= j < row + cols - 1 ==> #[trigger] t.2[j] == s.2[j + 1]
            &&& t.2[row + cols - 1] == SPACE
        }),
{
    lemma_index_ok(cols, rows, s.0, s.1);
}

proof fn lemma_cells_fit(client: int, char_size: int)
    requires
        0 <= client <= 65535,
        char_size != 0,
    ensures
        (char_size > 0 || cells_across(client, char_size) == 1),
        char_size > 0 ==> (cells_across(client, char_size) - 1) * char_size <= 65535,
        cells_across(client, char_size) >= 1,
{
    if char_size > 0 {
        let q = client / char_size;
        assert(q * char_size <= client) by (nonlinear_arith)
            requires q == client / char_size, char_size > 0, client >= 0;
        if q > 1 {
            assert((q - 1) * char_size <= q * char_size) by (nonlinear_arith)
                requires char_size > 0;
        } else {
            assert(cells_across(client, char_size) == 1);
            assert((1 - 1) * char_size == 0);
        }
    }
}

proof fn lemma_pixel_fits(x: int, n: int, size: int)
    requires
        0 <= x < n,
        size > 0 || n == 1,
        size > 0 ==> (n - 1) * size <= 65535,
    ensures
        i32::MIN <= x * size <= i32::MAX,
{
    if size > 0 {
        assert(0 <= x * size <= (n - 1) * size) by (nonlinear_arith)
            requires 0 <= x <= n - 1, size > 0;
    } else {
        assert(x == 0);
    }
}

/// The caret keys: each arrow moves the caret one cell its way unless it
/// is already at that edge, where it stays; Home and End go to the ends of
/// the row, Page Up and Page Down to the top and bottom row. None of them
/// changes a cell, and an arrow undoes the opposite arrow away from the
/// edges.
pub proof fn law_caret_keys(cols: int, rows: int, s: Screen)
    requires
        screen_ok(cols, rows, s),
    ensures
        keyed(cols, rows, s, VK_UP) == (s.0, if s.1 > 0 { s.1 - 1 } else { s.1 }, s.2),
        keyed(cols, rows, s, VK_DOWN) == (s.0, if s.1 < rows - 1 { s.1 + 1 } else { s.1 }, s.2),
        keyed(cols, rows, s, VK_LEFT) == (if s.0 > 0 { s.0 - 1 } else { s.0 }, s.1, s.2),
        keyed(cols, rows, s, VK_RIGHT) == (if s.0 < cols - 1 { s.0 + 1 } else { s.0 }, s.1, s.2),
        keyed(cols, rows, s, VK_HOME) == (0int, s.1, s.2),
        keyed(cols, rows, s, VK_END) == (cols - 1, s.1, s.2),
        keyed(cols, rows, s, VK_PRIOR) == (s.0, 0int, s.2),
        keyed(cols, rows, s, VK_NEXT) == (s.0, rows - 1, s.2),
        s.1 > 0 ==> keyed(cols, rows, keyed(cols, rows, s, VK_UP), VK_DOWN) == s,
        s.1 < rows - 1 ==> keyed(cols, rows, keyed(cols, rows, s, VK_DOWN), VK_UP) == s,
        s.0 > 0 ==> keyed(cols, rows, keyed(cols, rows, s, VK_LEFT), VK_RIGHT) == s,
        s.0 < cols - 1 ==> keyed(cols, rows, keyed(cols, rows, s, VK_RIGHT), VK_LEFT) == s,
{
}

} // verus!
