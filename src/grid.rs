//! The cell grid: a fixed `width × height` array of styled characters with a
//! cursor, flattened into runs of equal style for display.
use vstd::prelude::*;
use vstd::arithmetic::div_mod::{lemma_fundamental_div_mod, lemma_mod_multiples_basic};
use crate::text::push_char;

verus! {

#[derive(Debug, PartialEq, Eq, Clone, Copy, Structural)]
pub enum CharStyle {
    Normal,
    Inverted,
}

#[derive(Debug, PartialEq, Eq, Clone, Copy, Structural)]
pub struct GridChar {
    pub ch: char,
    pub style: CharStyle,
}

/// What a grid holds: its cells in row-major order, its size, the cursor
/// offset and the style that the next character is written with.
pub struct GridModel {
    pub cells: Seq<GridChar>,
    pub width: nat,
    pub height: nat,
    pub cursor: nat,
    pub style: CharStyle,
}

pub open spec fn blank_cell() -> GridChar {
    GridChar { ch: ' ', style: CharStyle::Normal }
}

/// The offset of the first cell of the row after the one holding `cursor`,
/// or `cursor` itself when it already starts a row.
pub open spec fn next_row_start(cursor: nat, width: nat) -> nat
    recommends
        width > 0,
{
    if cursor % width == 0 {
        cursor
    } else {
        ((cursor / width + 1) * width) as nat
    }
}

impl GridModel {
    pub open spec fn size(self) -> nat {
        self.width * self.height
    }

    pub open spec fn wf(self) -> bool {
        &&& self.width >= 1
        &&& self.height >= 1
        &&& self.cells.len() == self.size()
        &&& self.cursor <= self.size()
    }

    pub open spec fn with_cursor(self, cursor: nat) -> GridModel {
        GridModel { cursor, ..self }
    }

    /// Writing one character at the cursor: a newline moves to the start of
    /// the next row; any other character fills the cell under the cursor, if
    /// there is one, and advances.
    pub open spec fn put(self, ch: char) -> GridModel {
        if ch == '\n' {
            self.with_cursor(next_row_start(self.cursor, self.width))
        } else if self.cursor < self.size() {
            GridModel {
                cells: self.cells.update(self.cursor as int, GridChar { ch, style: self.style }),
                cursor: self.cursor + 1,
                ..self
            }
        } else {
            self
        }
    }

    /// Writing the characters of `s` in order.
    pub open spec fn put_all(self, s: Seq<char>) -> GridModel
        decreases s.len(),
    {
        if s.len() == 0 {
            self
        } else {
            self.put_all(s.drop_last()).put(s.last())
        }
    }

    /// The end (exclusive) of the row that holds offset `i`.
    pub open spec fn row_end(self, i: nat) -> nat {
        ((i / self.width + 1) * self.width) as nat
    }

    /// Blanking the characters from the cursor to the end of its row; styles
    /// stay.
    pub open spec fn clear_to_eol(self) -> GridModel {
        if self.cursor < self.size() {
            GridModel {
                cells: Seq::new(
                    self.cells.len(),
                    |i: int|
                        if self.cursor <= i < self.row_end(self.cursor) {
                            GridChar { ch: ' ', style: self.cells[i].style }
                        } else {
                            self.cells[i]
                        },
                ),
                ..self
            }
        } else {
            self
        }
    }

    /// The style a cell is shown with.
    pub open spec fn shown_style(self, i: int, show_cursor: bool) -> CharStyle {
        if show_cursor && i == self.cursor {
            CharStyle::Inverted
        } else {
            self.cells[i].style
        }
    }

    /// The text that cell `i` contributes: its character, preceded by a
    /// newline when it starts a row other than the first.
    pub open spec fn piece(self, i: int) -> Seq<char> {
        if i > 0 && i % (self.width as int) == 0 {
            seq!['\n', self.cells[i].ch]
        } else {
            seq![self.cells[i].ch]
        }
    }

    /// The runs of the first `k` cells: maximal spans of equal shown style,
    /// each with its text.
    pub open spec fn runs_upto(self, k: int, show_cursor: bool) -> Seq<(Seq<char>, CharStyle)>
        decreases k,
    {
        if k <= 0 {
            seq![]
        } else {
            let r = self.runs_upto(k - 1, show_cursor);
            let st = self.shown_style(k - 1, show_cursor);
            if k >= 2 && self.shown_style(k - 2, show_cursor) == st {
                r.update(r.len() - 1, (r.last().0 + self.piece(k - 1), st))
            } else {
                r.push((self.piece(k - 1), st))
            }
        }
    }

    pub open spec fn runs(self, show_cursor: bool) -> Seq<(Seq<char>, CharStyle)> {
        self.runs_upto(self.cells.len() as int, show_cursor)
    }
}

pub open spec fn runs_view(v: Seq<(String, CharStyle)>) -> Seq<(Seq<char>, CharStyle)> {
    v.map_values(|p: (String, CharStyle)| (p.0@, p.1))
}

pub struct CharGrid {
    grid: Vec<GridChar>,
    width: usize,
    height: usize,
    cursor: usize,
    current_style: CharStyle,
}

impl View for CharGrid {
    type V = GridModel;

    closed spec fn view(&self) -> GridModel {
        GridModel {
            cells: self.grid@,
            width: self.width as nat,
            height: self.height as nat,
            cursor: self.cursor as nat,
            style: self.current_style,
        }
    }
}

proof fn lemma_next_row_start(cursor: nat, width: nat, height: nat)
    requires
        width >= 1,
        cursor <= width * height,
    ensures
        next_row_start(cursor, width) <= width * height,
        cursor <= next_row_start(cursor, width),
        next_row_start(cursor, width) % width == 0,
        cursor % width != 0 ==> next_row_start(cursor, width) == cursor + (width - cursor % width),
{
    lemma_fundamental_div_mod(cursor as int, width as int);
    let q = cursor / width;
    if cursor % width != 0 {
        assert(q < height) by (nonlinear_arith)
            requires
                cursor == width * q + cursor % width,
                cursor % width > 0,
                cursor <= width * height,
                width >= 1,
        ;
        assert((q + 1) * width <= width * height) by (nonlinear_arith)
            requires
                q < height,
                width >= 1,
        ;
        assert((q + 1) * width == width * q + width) by (nonlinear_arith);
        lemma_mod_multiples_basic((q + 1) as int, width as int);
    }
}

impl CharGrid {
    pub open spec fn wf(&self) -> bool {
        &&& self@.wf()
        &&& self@.width * self@.height <= usize::MAX
    }

    pub fn create(width: usize, height: usize) -> (g: CharGrid)
        requires
            width >= 1,
            height >= 1,
            width * height <= usize::MAX,
        ensures
            g.wf(),
            g@.width == width,
            g@.height == height,
            g@.cursor == 0,
            g@.style == CharStyle::Normal,
            g@.cells == Seq::new((width * height) as nat, |i: int| blank_cell()),
    {
        let n = width * height;
        let mut grid: Vec<GridChar> = Vec::new();
        let mut i: usize = 0;
        while i < n
            invariant
                i <= n,
                grid@ == Seq::new(i as nat, |j: int| blank_cell()),
            decreases n - i,
        {
            grid.push(GridChar { ch: ' ', style: CharStyle::Normal });
            i = i + 1;
        }
        CharGrid { grid, width, height, cursor: 0, current_style: CharStyle::Normal }
    }

    /// "Print" a string at the current cursor position.
    pub fn addstr(&mut self, s: &str)
        requires
            old(self).wf(),
        ensures
            final(self).wf(),
            final(self)@ == old(self)@.put_all(s@),
            final(self)@.width == old(self)@.width,
            final(self)@.height == old(self)@.height,
            final(self)@.style == old(self)@.style,
    {
        let chars = crate::text::chars_of(s);
        let mut i: usize = 0;
        while i < chars.len()
            invariant
                self.wf(),
                i <= chars.len(),
                chars@ == s@,
                self@ == old(self)@.put_all(chars@.subrange(0, i as int)),
                self@.width == old(self)@.width,
                self@.height == old(self)@.height,
                self@.style == old(self)@.style,
            decreases chars.len() - i,
        {
            self.addch(chars[i]);
            let ghost pre = chars@.subrange(0, i as int);
            i = i + 1;
            assert(chars@.subrange(0, i as int).drop_last() == pre);
        }
        assert(chars@.subrange(0, chars.len() as int) == s@);
    }

    /// "Print" the characters of `s` from `from` to `to`.
    pub fn add_range(&mut self, s: &Vec<char>, from: usize, to: usize)
        requires
            old(self).wf(),
            from <= to <= s.len(),
        ensures
            final(self).wf(),
            final(self)@ == old(self)@.put_all(s@.subrange(from as int, to as int)),
            final(self)@.width == old(self)@.width,
            final(self)@.height == old(self)@.height,
            final(self)@.style == old(self)@.style,
    {
        let mut i = from;
        while i < to
            invariant
                self.wf(),
                from <= i <= to <= s.len(),
                self@ == old(self)@.put_all(s@.subrange(from as int, i as int)),
                self@.width == old(self)@.width,
                self@.height == old(self)@.height,
                self@.style == old(self)@.style,
            decreases to - i,
        {
            self.addch(s[i]);
            i = i + 1;
            assert(s@.subrange(from as int, i as int).drop_last() == s@.subrange(
                from as int,
                i - 1,
            ));
        }
    }

    /// "Print" a char at the current cursor position.
    pub fn addch(&mut self, ch: char)
        requires
            old(self).wf(),
        ensures
            final(self).wf(),
            final(self)@ == old(self)@.put(ch),
            final(self)@.width == old(self)@.width,
            final(self)@.height == old(self)@.height,
            final(self)@.style == old(self)@.style,
    {
        proof {
            lemma_next_row_start(self.cursor as nat, self.width as nat, self.height as nat);
        }
        if ch == '\n' {
            let r = self.cursor % self.width;
            if r != 0 {
                self.cursor = self.cursor + (self.width - r);
            }
        } else if self.cursor < self.width * self.height {
            let style = self.current_style;
            let c = self.cursor;
            self.grid.set(c, GridChar { ch, style });
            self.cursor = c + 1;
        }
    }

    /// Move the cursor to the provided row and column (or to the end of the
    /// grid, at the row just past the last).
    pub fn mv(&mut self, row: usize, col: usize)
        requires
            old(self).wf(),
            (row < old(self)@.height && col < old(self)@.width) || (row == old(self)@.height && col
                == 0),
        ensures
            final(self).wf(),
            final(self)@ == old(self)@.with_cursor((row * old(self)@.width + col) as nat),
    {
        proof {
            let w = self.width as int;
            let h = self.height as int;
            assert(row * w + col <= w * h) by (nonlinear_arith)
                requires
                    (row < h && col < w) || (row == h && col == 0),
                    w >= 1,
            ;
            assert(w * row == row * w) by (nonlinear_arith);
        }
        self.cursor = self.to_index(col, row);
    }

    /// Convert a column and row to an offset into the cells.
    pub fn to_index(&self, col: usize, row: usize) -> (r: usize)
        requires
            self.wf(),
            self@.width * row + col <= usize::MAX,
        ensures
            r == self@.width * row + col,
    {
        proof {
            assert(self.width * row == row * self.width) by (nonlinear_arith);
        }
        self.width * row + col
    }

    /// Blank every cell and reset its style; the cursor stays.
    pub fn window_clear(&mut self)
        requires
            old(self).wf(),
        ensures
            final(self).wf(),
            final(self)@ == (GridModel {
                cells: Seq::new(old(self)@.cells.len(), |i: int| blank_cell()),
                ..old(self)@
            }),
    {
        let n = self.width * self.height;
        let mut idx: usize = 0;
        while idx < n
            invariant
                self.wf(),
                n == self@.size(),
                idx <= n,
                self@.width == old(self)@.width,
                self@.height == old(self)@.height,
                self@.cursor == old(self)@.cursor,
                self@.style == old(self)@.style,
                self@.cells.len() == old(self)@.cells.len(),
                forall|i: int| 0 <= i < idx ==> self@.cells[i] == blank_cell(),
            decreases n - idx,
        {
            self.grid.set(idx, GridChar { ch: ' ', style: CharStyle::Normal });
            idx = idx + 1;
        }
        assert(self@.cells == Seq::new(old(self)@.cells.len(), |i: int| blank_cell()));
    }

    /// Clear to the end of the current line.
    pub fn clrtoeol(&mut self)
        requires
            old(self).wf(),
        ensures
            final(self).wf(),
            final(self)@ == old(self)@.clear_to_eol(),
    {
        let n = self.width * self.height;
        if self.cursor >= n {
            return ;
        }
        let ghost m = self@;
        proof {
            let end = m.row_end(m.cursor);
            lemma_fundamental_div_mod(m.cursor as int, m.width as int);
            let q = m.cursor / m.width;
            assert(end == m.width * q + m.width) by (nonlinear_arith)
                requires end == (q + 1) * m.width;
            assert(end <= m.size()) by (nonlinear_arith)
                requires
                    m.cursor < m.width * m.height,
                    m.cursor == m.width * q + m.cursor % m.width,
                    end == m.width * q + m.width,
                    m.width >= 1,
                    m.cursor % m.width < m.width,
            ;
        }
        let end = (self.cursor / self.width + 1) * self.width;
        let mut idx = self.cursor;
        while idx < end
            invariant
                self.wf(),
                n == m.size(),
                m.cursor <= idx <= end,
                end == m.row_end(m.cursor),
                end <= n,
                self@.width == m.width,
                self@.height == m.height,
                self@.cursor == m.cursor,
                self@.style == m.style,
                self@.cells.len() == m.cells.len(),
                forall|i: int|
                    0 <= i < m.cells.len() ==> #[trigger] self@.cells[i] == if m.cursor <= i < idx {
                        GridChar { ch: ' ', style: m.cells[i].style }
                    } else {
                        m.cells[i]
                    },
            decreases end - idx,
        {
            let style = self.grid[idx].style;
            self.grid.set(idx, GridChar { ch: ' ', style });
            idx = idx + 1;
        }
        assert(self@.cells == m.clear_to_eol().cells);
    }

    pub fn set_reverse(&mut self, b: bool)
        requires
            old(self).wf(),
        ensures
            final(self).wf(),
            final(self)@ == (GridModel {
                style: if b {
                    CharStyle::Inverted
                } else {
                    CharStyle::Normal
                },
                ..old(self)@
            }),
    {
        self.current_style = if b {
            CharStyle::Inverted
        } else {
            CharStyle::Normal
        };
    }

    /// The cursor as (row, column).
    pub fn get_cur_yx(&self) -> (r: (usize, usize))
        requires
            self.wf(),
        ensures
            r.0 == self@.cursor / self@.width,
            r.1 == self@.cursor % self@.width,
    {
        (self.cursor / self.width, self.cursor % self.width)
    }

    pub fn width(&self) -> (r: usize)
        ensures
            r == self@.width,
    {
        self.width
    }

    pub fn height(&self) -> (r: usize)
        ensures
            r == self@.height,
    {
        self.height
    }

    /// Convert the grid into runs: each run is a text and a single style; a
    /// text holds a newline wherever a new row starts. With `show_cursor`,
    /// the cell under the cursor is shown inverted.
    pub fn grid_to_runs(&self, show_cursor: bool) -> (v: Vec<(String, CharStyle)>)
        requires
            self.wf(),
        ensures
            runs_view(v@) == self@.runs(show_cursor),
    {
        let ghost m = self@;
        let mut v: Vec<(String, CharStyle)> = Vec::new();
        let mut last_style: Option<CharStyle> = None;
        let mut s = String::new();
        let n = self.grid.len();
        let mut idx: usize = 0;
        while idx < n
            invariant
                self.wf(),
                m == self@,
                n == m.cells.len(),
                idx <= n,
                idx == 0 ==> last_style is None && v@.len() == 0 && s@.len() == 0,
                idx > 0 ==> {
                    let r = m.runs_upto(idx as int, show_cursor);
                    &&& last_style == Some(m.shown_style(idx - 1, show_cursor))
                    &&& r.len() == v@.len() + 1
                    &&& runs_view(v@) == r.drop_last()
                    &&& r.last() == (s@, m.shown_style(idx - 1, show_cursor))
                },
            decreases n - idx,
        {
            let ghost r0 = m.runs_upto(idx as int, show_cursor);
            let ch = self.grid[idx].ch;
            let style = if show_cursor && idx == self.cursor {
                CharStyle::Inverted
            } else {
                self.grid[idx].style
            };
            let mut pushed = false;
            let ghost s0 = s@;
            match last_style {
                Some(ls) => {
                    if ls != style {
                        let ghost v0 = v@;
                        v.push((s.clone(), ls));
                        s = String::new();
                        pushed = true;
                        assert(runs_view(v@) == runs_view(v0).push((r0.last().0, ls)));
                    }
                },
                None => {
                    pushed = true;
                },
            }
            if idx > 0 && idx % self.width == 0 {
                push_char(&mut s, '\n');
            }
            last_style = Some(style);
            push_char(&mut s, ch);
            idx = idx + 1;
            proof {
                let r = m.runs_upto(idx as int, show_cursor);
                if pushed {
                    assert(s@ =~= m.piece(idx - 1));
                } else {
                    assert(s@ =~= s0 + m.piece(idx - 1));
                }
                assert(m.piece(idx - 1) == if idx - 1 > 0 && (idx - 1) % (m.width as int) == 0 {
                    seq!['\n', ch]
                } else {
                    seq![ch]
                });
                if pushed {
                    assert(r == r0.push((m.piece(idx - 1), style)));
                    assert(r.drop_last() == r0);
                } else {
                    assert(r == r0.update(r0.len() - 1, (r0.last().0 + m.piece(idx - 1), style)));
                    assert(r.drop_last() == r0.drop_last());
                }
            }
        }
        match last_style {
            Some(ls) => {
                let ghost v0 = v@;
                v.push((s, ls));
                proof {
                    let r = m.runs_upto(n as int, show_cursor);
                    assert(runs_view(v@) == runs_view(v0).push(r.last()));
                    assert(r == r.drop_last().push(r.last()));
                }
            },
            None => {},
        }
        v
    }
}

/// Flattening is a function of the grid alone: two flattenings of a grid
/// that did not change between them give the same runs.
pub proof fn lemma_runs_repeatable(g1: GridModel, g2: GridModel, show_cursor: bool)
    requires
        g1 == g2,
    ensures
        g1.runs(show_cursor) == g2.runs(show_cursor),
{
}

} // verus!
