//! The console engine: a scroll buffer wrapped into a line index, drawn onto
//! a cell grid split into status, upper and lower regions, with paging
//! ("MORE") and line input.
use vstd::prelude::*;
use crate::grid::{blank_cell, CharGrid, CharStyle, GridModel};
use crate::text::{chars_of, decimal, decimal_string, pop_char, push_char, spaces};
use crate::wrap::{
    carried, first_line, is_wrap_char, lemma_wrap_all_append, lemma_last_break_range, lemma_line_bounds, lemma_lines_wf_last,
    lemma_unwrap_last_wf, unwrap_last, wrap_all, wrap_chars, lemma_wrap_step_wf, last_break, line_end,
    line_text, lines_wf, wrap_char, wrap_step, LineIndex, WrapStyle,
};

verus! {

/// Grid size a new screen starts with.
pub const GRID_WIDTH: usize = 130;
pub const GRID_HEIGHT: usize = 25;

/// Smallest screen that a transcript is drawn on when sizes are checked.
pub const MIN_WIDTH: usize = 60;
pub const MIN_HEIGHT: usize = 14;

/// Chosen so that the left status field is at most 49 wide on the default
/// grid; the right field is one wider.
pub const MAX_RIGHT_STATUS_WIDTH: usize = 11;
pub const STATUS_BAR_HEIGHT: usize = 1;

pub const BACKSPACE: char = '\u{8}';

/// How many characters the scroll buffer grows by when full.
pub const SCROLL_BUFFER_INITIAL_SIZE: usize = 20000;

/// Most characters the scroll buffer holds.
pub const MAX_TEXT: usize = 0x4000_0000;

#[derive(Debug, PartialEq, Eq, Clone, Copy, Structural)]
pub enum ScreenState {
    /// Output is drawn as it is printed.
    Output,
    /// Waiting for a line of input.
    WaitingForLine,
    /// Waiting for a page advance.
    WaitingForMore,
    /// Waiting for a page advance, then for a line of input.
    WaitingForMoreThenLine,
}

/// The region that prints go to.
#[derive(Debug, PartialEq, Eq, Clone, Copy, Structural)]
pub enum WindowLayout {
    Upper,
    Lower,
}

/// The story-file version the screen serves.
#[derive(Debug, PartialEq, Eq, Clone, Copy, Structural)]
pub enum ZCodeVersion {
    V1,
    V2,
    V3,
    V4,
    V5,
    V6,
    V7,
    V8,
}

/// A band of grid rows, `top_index` inclusive to `bottom_index` exclusive.
#[derive(Debug, PartialEq, Eq, Clone, Copy, Structural)]
pub struct ScreenWindow {
    pub top_index: usize,
    pub bottom_index: usize,
}

impl ScreenWindow {
    pub fn height(&self) -> (r: usize)
        ensures
            r == if self.bottom_index < self.top_index {
                0
            } else {
                self.bottom_index - self.top_index
            },
    {
        if self.bottom_index < self.top_index {
            return 0;
        }
        self.bottom_index - self.top_index
    }
}

/// A place in the text: a line number, a column, and the width the column
/// was counted at.
#[derive(Debug, PartialEq, Eq, Clone, Copy, Structural)]
pub struct TextLocation {
    pub line_start: usize,
    pub char_index: usize,
    pub line_width: usize,
}

impl TextLocation {
    pub open spec fn absolute(self) -> int {
        self.line_start * self.line_width + self.char_index
    }

    pub fn empty() -> (r: TextLocation)
        ensures
            r == (TextLocation { line_start: 0, char_index: 0, line_width: 0 }),
    {
        TextLocation { line_start: 0, char_index: 0, line_width: 0 }
    }

    /// The location counted in characters from the top of the text.
    pub fn calculate_absolute_location(&self) -> (r: u128)
        ensures
            r == self.absolute(),
    {
        let l = self.line_start as u128;
        let w = self.line_width as u128;
        proof {
            assert(l * w <= 0xffff_ffff_ffff_ffffu128 * 0xffff_ffff_ffff_ffffu128) by (nonlinear_arith)
                requires
                    l <= 0xffff_ffff_ffff_ffffu128,
                    w <= 0xffff_ffff_ffff_ffffu128,
            ;
        }
        l * w + self.char_index as u128
    }
}

pub struct StatusBar {
    pub status_left: String,
    pub status_right: String,
}

/// What a screen holds, but for its grid: the text and its line index, the
/// regions, the scroll position, the input state and the settings.
pub struct ScreenModel {
    pub lines: Seq<LineIndex>,
    pub buffer: Seq<char>,
    pub width: nat,
    pub height: nat,
    pub upper_bottom: nat,
    pub lower_top: nat,
    pub scroll_top: nat,
    pub state: ScreenState,
    pub use_more: bool,
    pub redraw_enabled: bool,
    pub validate_size: bool,
    pub wrap_style: WrapStyle,
    pub selected: WindowLayout,
    pub upper_cursor: TextLocation,
    pub input_start: TextLocation,
    pub max_input: nat,
    pub last_input: Seq<char>,
    pub status_left: Seq<char>,
    pub status_right: Seq<char>,
    pub version: ZCodeVersion,
}

pub open spec fn min_nat(a: nat, b: nat) -> nat {
    if a < b {
        a
    } else {
        b
    }
}

impl ScreenModel {
    /// Rows of the lower region.
    pub open spec fn lower_height(self) -> nat {
        (self.height - self.lower_top) as nat
    }

    /// Whether the lower region has grown up to the upper one; before that
    /// it rises from the bottom of the screen, one row per line.
    pub open spec fn attached(self) -> bool {
        self.lower_top == self.upper_bottom
    }

    /// The scroll position that shows the end of the text.
    pub open spec fn bottom_scroll(self) -> nat {
        if !self.attached() || self.lower_height() > self.lines.len() {
            0
        } else {
            (self.lines.len() - self.lower_height()) as nat
        }
    }

    pub open spec fn wf(self) -> bool {
        &&& self.width >= 1
        &&& self.height >= 2
        &&& self.width * self.height <= usize::MAX
        &&& 1 <= self.upper_bottom <= self.lower_top < self.height
        &&& lines_wf(self.lines, self.buffer, self.width)
        &&& self.lines.len() >= 1
        &&& line_end(self.lines.last()) == self.buffer.len()
        &&& self.lines.last().length <= self.width
        &&& self.buffer.len() <= MAX_TEXT
        &&& self.lines.len() <= self.buffer.len() + 1
        &&& self.scroll_top + min_nat(self.lower_height(), self.lines.len()) <= self.lines.len()
    }

    /// The cursor: the end of the last line.
    pub open spec fn cursor_location(self) -> TextLocation {
        TextLocation {
            line_start: self.lines.len() as usize,
            char_index: self.lines.last().length,
            line_width: self.width as usize,
        }
    }

    /// Paging after a page's worth of lines has come since input was last
    /// asked for: wait for a page advance, showing the page boundary.
    pub open spec fn more_check(self) -> ScreenModel {
        let n = self.lines.len();
        let h = self.lower_height();
        if self.use_more && n > self.input_start.line_start + h && self.state
            == ScreenState::Output {
            ScreenModel {
                state: ScreenState::WaitingForMore,
                scroll_top: if n >= h + 2 {
                    (n - h - 2) as nat
                } else {
                    0
                },
                ..self
            }
        } else {
            self
        }
    }

    /// The region and scroll bookkeeping after a line was added: while
    /// output or input is shown, the lower region first rises by a row, and
    /// once it meets the upper region the text scrolls by a line.
    pub open spec fn after_push(self) -> ScreenModel {
        self.scroll_after_push().more_check()
    }

    pub open spec fn scroll_after_push(self) -> ScreenModel {
        let n = self.lines.len();
        let h = self.lower_height();
        let scroll = self.state == ScreenState::Output || self.state
            == ScreenState::WaitingForLine;
        if scroll && !self.attached() && n >= h {
            ScreenModel { lower_top: (self.lower_top - 1) as nat, ..self }
        } else if scroll && self.attached() && n > h {
            ScreenModel { scroll_top: self.scroll_top + 1, ..self }
        } else {
            self
        }
    }

    /// The line index and paging after `c` is wrapped onto the text (the
    /// text itself not yet extended).
    pub open spec fn line_step(self, c: char) -> ScreenModel {
        let m = ScreenModel {
            lines: wrap_step(self.lines, self.buffer, c, self.width, self.wrap_style),
            ..self
        };
        if c == '\n' || self.lines.last().length >= self.width {
            m.after_push()
        } else {
            m
        }
    }

    /// Appending `c` to the text of the lower region.
    pub open spec fn char_step(self, c: char) -> ScreenModel {
        ScreenModel { buffer: self.buffer.push(c), ..self.line_step(c) }
    }

    /// Appending the characters of `s`, in order.
    pub open spec fn chars_step(self, s: Seq<char>) -> ScreenModel
        decreases s.len(),
    {
        if s.len() == 0 {
            self
        } else {
            self.chars_step(s.drop_last()).char_step(s.last())
        }
    }
}

/// What the lower region stores for a printed character: a newline, a
/// printable ASCII character, or `?` for anything else.
pub open spec fn stored_char(c: char) -> char {
    if c == '\n' {
        c
    } else if (c as u32) < 32 || (c as u32) > 126 {
        '?'
    } else {
        c
    }
}

pub open spec fn stored_text(s: Seq<char>) -> Seq<char> {
    s.map_values(|c: char| stored_char(c))
}

/// Width of the left status field: the grid less the right field.
pub open spec fn left_edge(width: nat) -> nat {
    if width >= MAX_RIGHT_STATUS_WIDTH + 1 {
        (width - MAX_RIGHT_STATUS_WIDTH - 1) as nat
    } else {
        0
    }
}

pub open spec fn ellipsis() -> Seq<char> {
    seq!['.', '.', '.', ' ']
}

/// The status row: the left text padded with spaces to the left field, or,
/// when longer than the field, cut and ended with an ellipsis; then the right
/// text right-aligned in its field, or, when longer, cut from the front to
/// its last characters.
pub open spec fn status_line(left: Seq<char>, right: Seq<char>, width: nat) -> Seq<char> {
    let le = left_edge(width);
    let rw = (MAX_RIGHT_STATUS_WIDTH + 1) as nat;
    let l = if left.len() <= le {
        left + spaces((le - left.len()) as nat)
    } else {
        left.take(
            if le >= 4 {
                le - 4
            } else {
                0
            },
        ) + ellipsis()
    };
    let r = if right.len() < rw {
        spaces((rw - right.len()) as nat) + right
    } else {
        right.skip(right.len() - rw)
    };
    l + r
}

/// The grid after the status row is drawn: `line`, as much as fits in a
/// row, written inverted from the top left; the cursor and the normal style
/// are restored.
pub open spec fn status_grid(g: GridModel, line: Seq<char>) -> GridModel {
    let n = min_nat(line.len(), g.width);
    let g1 = GridModel { style: CharStyle::Inverted, ..g }.with_cursor(0).put_all(
        line.take(n as int),
    );
    GridModel { style: CharStyle::Normal, ..g1 }.with_cursor(g.cursor)
}

/// The grid after a full clear: all blank, an empty status row, the cursor
/// at the start of the row below it.
pub open spec fn clear_grid(g: GridModel) -> GridModel {
    status_grid(
        GridModel { cells: Seq::new(g.cells.len(), |i: int| blank_cell()), ..g },
        status_line(seq![], seq![], g.width),
    ).with_cursor(g.width)
}

pub open spec fn too_small_text(width: nat, height: nat) -> Seq<char> {
    "WINDOW TOO SMALL.\nMINIMUM SIZE "@ + decimal(MIN_WIDTH as nat) + "x"@ + decimal(
        MIN_HEIGHT as nat,
    ) + "\nCURRENT SIZE "@ + decimal(width) + "x"@ + decimal(height)
}

pub open spec fn state_name(s: ScreenState) -> Seq<char> {
    match s {
        ScreenState::Output => "Output"@,
        ScreenState::WaitingForLine => "WaitingForLine"@,
        ScreenState::WaitingForMore => "WaitingForMore"@,
        ScreenState::WaitingForMoreThenLine => "WaitingForMoreThenLine"@,
    }
}

pub open spec fn more_marker() -> Seq<char> {
    seq!['[', 'M', 'O', 'R', 'E', ']']
}

impl ScreenModel {
    pub open spec fn size_valid(self) -> bool {
        !self.validate_size || (self.height >= MIN_HEIGHT && self.width >= MIN_WIDTH)
    }

    /// How many rows of the lower region hold text.
    pub open spec fn max_line(self) -> nat {
        min_nat(self.lower_height(), self.lines.len())
    }

    pub open spec fn paging(self) -> bool {
        self.state == ScreenState::WaitingForMore || self.state
            == ScreenState::WaitingForMoreThenLine
    }

    /// What a line shows: its text, less a leading space when wrapping on
    /// break characters.
    pub open spec fn display_text(self, l: LineIndex) -> Seq<char> {
        let t = line_text(self.buffer, l);
        if self.wrap_style == WrapStyle::WrapOnPunctuation && t.len() > 0 && t[0] == ' ' {
            t.drop_first()
        } else {
            t
        }
    }

    /// What row `i` of the lower region shows: the line scrolled to it, or
    /// the MORE marker on the last row while paging.
    pub open spec fn row_text(self, i: nat) -> Seq<char> {
        if i + 1 >= self.max_line() && self.paging() {
            more_marker()
        } else {
            self.display_text(self.lines[self.scroll_top + i as int])
        }
    }

    /// The grid after the first `k` rows of the lower region are drawn.
    pub open spec fn draw_rows(self, g: GridModel, k: nat) -> GridModel
        decreases k,
    {
        if k == 0 {
            g
        } else {
            self.draw_rows(g, (k - 1) as nat).with_cursor(
                ((k - 1 + self.lower_top) * self.width) as nat,
            ).clear_to_eol().put_all(self.row_text((k - 1) as nat))
        }
    }

    /// The grid after a redraw: the lower region's visible lines, or, on a
    /// screen too small, a cleared grid with a message.
    pub open spec fn redraw_grid(self, g: GridModel) -> GridModel {
        if !self.size_valid() {
            clear_grid(g).with_cursor(0).put_all(too_small_text(self.width, self.height))
        } else if self.redraw_enabled {
            self.draw_rows(g, self.max_line())
        } else {
            g
        }
    }
}

/// The grid and upper cursor after `s` is printed to the upper region:
/// no wrapping or scrolling; a newline moves to the next row of the region
/// and stops the print at its last row; a character that does not fit in
/// the row is dropped.
pub open spec fn upper_text(g: GridModel, uc: TextLocation, bottom: nat, s: Seq<char>) -> (
    GridModel,
    TextLocation,
)
    decreases s.len(),
{
    if s.len() == 0 {
        (g, uc)
    } else {
        let c = s[0];
        let rest = s.drop_first();
        if c == '\n' {
            if uc.line_start < bottom {
                upper_text(
                    g,
                    TextLocation { line_start: (uc.line_start + 1) as usize, char_index: 0, ..uc },
                    bottom,
                    rest,
                )
            } else {
                (g, uc)
            }
        } else if uc.line_start < bottom && uc.char_index < uc.line_width && uc.char_index
            < g.width {
            upper_text(
                g.with_cursor((uc.line_start * g.width + uc.char_index) as nat).put(c),
                TextLocation { char_index: (uc.char_index + 1) as usize, ..uc },
                bottom,
                rest,
            )
        } else {
            upper_text(g, uc, bottom, rest)
        }
    }
}

/// The grid after rows `top` up to `top + k` are blanked.
pub open spec fn clear_rows(g: GridModel, top: nat, k: nat) -> GridModel
    decreases k,
{
    if k == 0 {
        g
    } else {
        clear_rows(g, top, (k - 1) as nat).with_cursor(((top + k - 1) * g.width) as nat).clear_to_eol()
    }
}

impl ScreenModel {
    pub open spec fn redraw_pair(self, g: GridModel) -> (ScreenModel, GridModel) {
        (self, self.redraw_grid(g))
    }

    /// Printing to the lower region: the text is wrapped on, then drawn
    /// unless input is being taken.
    pub open spec fn print_lower_pair(self, g: GridModel, s: Seq<char>) -> (ScreenModel, GridModel) {
        let p = self.chars_step(stored_text(s));
        if p.state == ScreenState::Output || p.state == ScreenState::WaitingForMore {
            p.redraw_pair(g)
        } else {
            (p, g)
        }
    }

    pub open spec fn upper_height(self) -> nat {
        (self.upper_bottom - STATUS_BAR_HEIGHT) as nat
    }

    pub open spec fn print_upper_pair(self, g: GridModel, s: Seq<char>) -> (ScreenModel, GridModel) {
        if self.upper_height() > 0 && STATUS_BAR_HEIGHT <= self.upper_cursor.line_start
            <= self.upper_bottom {
            let r = upper_text(g, self.upper_cursor, self.upper_bottom, s);
            (ScreenModel { upper_cursor: r.1, ..self }, r.0)
        } else {
            (self, g)
        }
    }

    /// Printing to the selected region.
    pub open spec fn print_pair(self, g: GridModel, s: Seq<char>) -> (ScreenModel, GridModel) {
        if self.selected == WindowLayout::Lower {
            self.print_lower_pair(g, s)
        } else {
            self.print_upper_pair(g, s)
        }
    }

    /// The scroll position kept within the text.
    pub open spec fn clamp_scroll(self) -> ScreenModel {
        let limit = (self.lines.len() - self.max_line()) as nat;
        if self.scroll_top > limit {
            ScreenModel { scroll_top: limit, ..self }
        } else {
            self
        }
    }

    /// The bookkeeping after a line has gone: while the lower region is
    /// still rising it sinks back a row, else the text scrolls back a line.
    pub open spec fn sink(self) -> ScreenModel {
        let m = if !self.attached() {
            if self.lower_top + 1 < self.height {
                ScreenModel { lower_top: self.lower_top + 1, ..self }
            } else {
                self
            }
        } else if self.scroll_top > 0 {
            ScreenModel { scroll_top: (self.scroll_top - 1) as nat, ..self }
        } else {
            self
        };
        m.clamp_scroll()
    }

    /// Taking back the last character of the text; nothing when there is
    /// none.
    pub open spec fn erase_one(self) -> ScreenModel {
        let last = self.lines.last();
        if last.length == 0 && self.lines.len() <= 1 {
            self
        } else {
            let m = ScreenModel {
                lines: unwrap_last(self.lines),
                buffer: self.buffer.drop_last(),
                ..self
            };
            if last.length > 0 {
                m
            } else {
                m.sink()
            }
        }
    }

    pub open spec fn erase_n(self, k: nat) -> ScreenModel
        decreases k,
    {
        if k == 0 {
            self
        } else {
            self.erase_n((k - 1) as nat).erase_one()
        }
    }

    pub open spec fn erase_pair(self, g: GridModel, k: nat) -> (ScreenModel, GridModel) {
        self.erase_n(k).redraw_pair(g)
    }

    pub open spec fn scroll_up_pair(self, g: GridModel) -> (ScreenModel, GridModel) {
        ScreenModel {
            scroll_top: if self.scroll_top >= self.lower_height() {
                (self.scroll_top - self.lower_height()) as nat
            } else {
                0
            },
            ..self
        }.redraw_pair(g)
    }

    pub open spec fn scroll_down_pair(self, g: GridModel) -> (ScreenModel, GridModel) {
        ScreenModel {
            scroll_top: min_nat(self.scroll_top + self.lower_height(), self.bottom_scroll()),
            ..self
        }.redraw_pair(g)
    }

    /// One keystroke: a page advance while paging; while taking a line, a
    /// newline ends it (the result is then true), a backspace takes back a
    /// character typed since input began, and any other character is taken
    /// and echoed while the line has room.
    pub open spec fn input_pair(self, g: GridModel, c: char) -> (ScreenModel, GridModel, bool) {
        if self.paging() {
            let (m, g2) = self.page_pair(g);
            (m, g2, false)
        } else if self.state == ScreenState::WaitingForLine {
            self.line_input_pair(g, c)
        } else {
            (self, g, false)
        }
    }

    /// A page advance: scroll down a page, and leave paging (for output, or
    /// for the line owed) once the end of the text shows.
    pub open spec fn page_pair(self, g: GridModel) -> (ScreenModel, GridModel) {
        let (m1, g1) = self.scroll_down_pair(g);
        let m2 = if m1.scroll_top == m1.bottom_scroll() {
            ScreenModel {
                state: if self.state == ScreenState::WaitingForMore {
                    ScreenState::Output
                } else {
                    ScreenState::WaitingForLine
                },
                ..m1
            }
        } else {
            m1
        };
        m2.redraw_pair(g1)
    }

    pub open spec fn line_input_pair(self, g: GridModel, c: char) -> (
        ScreenModel,
        GridModel,
        bool,
    ) {
        let m1 = ScreenModel { scroll_top: self.bottom_scroll(), ..self };
        if c == '\n' {
            let (m2, g2) = (ScreenModel { state: ScreenState::Output, ..m1 }).print_pair(
                g,
                seq!['\n'],
            );
            (m2, g2, true)
        } else if c == BACKSPACE {
            if m1.last_input.len() > 0 && m1.cursor_location().absolute()
                > m1.input_start.absolute() {
                let (m2, g2) = (ScreenModel {
                    last_input: m1.last_input.drop_last(),
                    ..m1
                }).erase_pair(g, 1);
                (m2, g2, false)
            } else {
                (m1, g, false)
            }
        } else if m1.cursor_location().absolute() < m1.input_start.absolute() + m1.max_input {
            let (m2, g2) = (ScreenModel { last_input: m1.last_input.push(c), ..m1 }).print_pair(
                g,
                seq![c],
            );
            let (m3, g3) = m2.redraw_pair(g2);
            (m3, g3, false)
        } else {
            (m1, g, false)
        }
    }

    /// Waiting for a line of at most `max` characters, after any page
    /// advance still owed; nothing changes while a line is already awaited.
    pub open spec fn wait_for_line_model(self, max: nat) -> ScreenModel {
        if self.state == ScreenState::WaitingForLine || self.state
            == ScreenState::WaitingForMoreThenLine {
            self
        } else {
            ScreenModel {
            max_input: max,
            last_input: seq![],
            input_start: self.cursor_location(),
            state: if self.state == ScreenState::WaitingForMore {
                ScreenState::WaitingForMoreThenLine
            } else {
                ScreenState::WaitingForLine
            },
            ..self
            }
        }
    }

    /// The scroll position after a change of the regions: at the end of
    /// the text once the lower region is attached and full, else kept
    /// within the text.
    pub open spec fn scroll_to_bottom(self) -> ScreenModel {
        if self.attached() && self.lower_height() < self.lines.len() {
            ScreenModel { scroll_top: (self.lines.len() - self.lower_height()) as nat, ..self }
        } else {
            self.clamp_scroll()
        }
    }

    /// Resizing the upper region to `lines` rows (at most the screen less
    /// the status row and one row), while the lower region is selected.
    /// The lower region follows the upper one once attached; newly shown
    /// upper rows are blanked.
    pub open spec fn split_pair(self, g: GridModel, lines: nat) -> (ScreenModel, GridModel) {
        if self.selected != WindowLayout::Lower {
            (self, g)
        } else if lines == 0 {
            let m = ScreenModel {
                upper_bottom: STATUS_BAR_HEIGHT as nat,
                lower_top: if self.attached() {
                    STATUS_BAR_HEIGHT as nat
                } else {
                    self.lower_top
                },
                ..self
            };
            m.scroll_to_bottom().redraw_pair(g)
        } else {
            let n = min_nat(lines, (self.height - STATUS_BAR_HEIGHT - 1) as nat);
            let nb = (STATUS_BAR_HEIGHT + n) as nat;
            let m = ScreenModel {
                upper_bottom: nb,
                lower_top: if self.attached() || self.lower_top < nb {
                    nb
                } else {
                    self.lower_top
                },
                ..self
            };
            m.scroll_to_bottom().redraw_pair(clear_rows(g, STATUS_BAR_HEIGHT as nat, n))
        }
    }
}

/// What the lower region stores for a printed character.
fn stored(c: char) -> (r: char)
    ensures
        r == stored_char(c),
{
    if c == '\n' {
        c
    } else if (c as u32) < 32 || (c as u32) > 126 {
        '?'
    } else {
        c
    }
}

/// Print `chars` at the upper cursor, rows up to `bottom`.
fn upper_chars(grid: &mut CharGrid, uc: &mut TextLocation, bottom: usize, chars: &Vec<char>)
    requires
        old(grid).wf(),
        bottom < old(grid)@.height,
    ensures
        final(grid).wf(),
        final(grid)@.width == old(grid)@.width,
        final(grid)@.height == old(grid)@.height,
        (final(grid)@, *final(uc)) == upper_text(old(grid)@, *old(uc), bottom as nat, chars@),
{
    let ghost total = upper_text(grid@, *uc, bottom as nat, chars@);
    assert(chars@.skip(0) == chars@);
    let mut i: usize = 0;
    while i < chars.len()
        invariant
            grid.wf(),
            grid@.width == old(grid)@.width,
            grid@.height == old(grid)@.height,
            bottom < grid@.height,
            i <= chars.len(),
            total == upper_text(old(grid)@, *old(uc), bottom as nat, chars@),
            upper_text(grid@, *uc, bottom as nat, chars@.skip(i as int)) == total,
        decreases chars.len() - i,
    {
        let c = chars[i];
        assert(chars@.skip(i as int).drop_first() == chars@.skip(i + 1));
        assert(chars@.skip(i as int)[0] == c);
        if c == '\n' {
            // No wrapping or scrolling: stop at the last row
            if uc.line_start < bottom {
                uc.line_start = uc.line_start + 1;
                uc.char_index = 0;
            } else {
                assert(upper_text(grid@, *uc, bottom as nat, chars@.skip(i as int)) == (grid@, *uc));
                return ;
            }
        } else if uc.line_start < bottom && uc.char_index < uc.line_width && uc.char_index
            < grid.width() {
            grid.mv(uc.line_start, uc.char_index);
            grid.addch(c);
            uc.char_index = uc.char_index + 1;
        }
        i = i + 1;
    }
    assert(chars@.skip(chars.len() as int).len() == 0);
}

/// A blank grid `width` × `height`, the cursor at the top left.
pub open spec fn blank_grid(width: nat, height: nat) -> GridModel {
    GridModel {
        cells: Seq::new(width * height, |i: int| blank_cell()),
        width,
        height,
        cursor: 0,
        style: CharStyle::Normal,
    }
}

impl ScreenModel {
    /// The regions for a screen `width` × `height`, before the text is
    /// wrapped again: the status row, the upper region at its height (as
    /// far as it fits), the lower region below it, the line index emptied.
    pub open spec fn laid_out(self, width: nat, height: nat) -> ScreenModel {
        let uh = min_nat(self.upper_height(), (height - STATUS_BAR_HEIGHT - 1) as nat);
        ScreenModel {
            width,
            height,
            lines: first_line(),
            buffer: seq![],
            scroll_top: 0,
            upper_bottom: (STATUS_BAR_HEIGHT + uh) as nat,
            lower_top: (STATUS_BAR_HEIGHT + uh) as nat,
            ..self
        }
    }

    /// Wrapping `text` afresh onto a laid out screen: the grid is cleared,
    /// the lower region starts again from the bottom row, the text is
    /// replayed without paging, the status is drawn again, input is counted
    /// from the new cursor, and the screen is redrawn.
    pub open spec fn rebuild_pair(self, g: GridModel, text: Seq<char>) -> (ScreenModel, GridModel) {
        let m0 = ScreenModel {
            status_left: seq![],
            status_right: seq![],
            lower_top: (self.height - 1) as nat,
            state: ScreenState::Output,
            use_more: false,
            ..self
        };
        let m1 = m0.chars_step(text);
        let m2 = ScreenModel {
            state: self.state,
            use_more: self.use_more,
            status_left: self.status_left,
            status_right: self.status_right,
            ..m1
        };
        let m3 = ScreenModel { input_start: m2.cursor_location(), ..m2 };
        let g1 = status_grid(
            clear_grid(g),
            status_line(self.status_left, self.status_right, self.width),
        );
        m3.redraw_pair(g1)
    }

    /// A new grid `width` × `height`, with the whole text wrapped again.
    pub open spec fn resize_pair(self, width: nat, height: nat) -> (ScreenModel, GridModel) {
        self.laid_out(width, height).rebuild_pair(blank_grid(width, height), self.buffer)
    }

    /// The same grid, with the whole text wrapped again.
    pub open spec fn recalc_pair(self, g: GridModel) -> (ScreenModel, GridModel) {
        self.laid_out(self.width, self.height).rebuild_pair(g, self.buffer)
    }
}

/// The screen a new engine starts with.
pub open spec fn initial_model() -> ScreenModel {
    ScreenModel {
        lines: first_line(),
        buffer: seq![],
        width: GRID_WIDTH as nat,
        height: GRID_HEIGHT as nat,
        upper_bottom: STATUS_BAR_HEIGHT as nat,
        lower_top: (GRID_HEIGHT - 1) as nat,
        scroll_top: 0,
        state: ScreenState::Output,
        use_more: false,
        redraw_enabled: true,
        validate_size: true,
        wrap_style: WrapStyle::WrapOnPunctuation,
        selected: WindowLayout::Lower,
        upper_cursor: TextLocation { line_start: 0, char_index: 0, line_width: 0 },
        input_start: TextLocation { line_start: 0, char_index: 0, line_width: 0 },
        max_input: 0,
        last_input: seq![],
        status_left: seq![],
        status_right: seq![],
        version: ZCodeVersion::V1,
    }
}

/// Appending text wraps it onto the line index and extends the text; the
/// width and the wrap style stay.
pub proof fn lemma_chars_step_text(m: ScreenModel, s: Seq<char>)
    ensures
        m.chars_step(s).lines == wrap_chars(m.lines, m.buffer, s, m.width, m.wrap_style),
        m.chars_step(s).buffer == m.buffer + s,
        m.chars_step(s).width == m.width,
        m.chars_step(s).height == m.height,
        m.chars_step(s).wrap_style == m.wrap_style,
    decreases s.len(),
{
    if s.len() == 0 {
        assert(m.buffer + s == m.buffer);
    } else {
        lemma_chars_step_text(m, s.drop_last());
        assert(m.buffer + s.drop_last() + seq![s.last()] == m.buffer + s);
        assert(m.buffer + s.drop_last() + seq![s.last()] == (m.buffer + s.drop_last()).push(
            s.last(),
        ));
    }
}

/// A resize keeps the text and wraps it afresh at the new width.
pub proof fn lemma_resize_rewraps(m: ScreenModel, width: nat, height: nat)
    ensures
        m.resize_pair(width, height).0.buffer == m.buffer,
        m.resize_pair(width, height).0.lines == wrap_all(m.buffer, width, m.wrap_style),
        m.resize_pair(width, height).0.width == width,
        m.resize_pair(width, height).0.height == height,
        m.resize_pair(width, height).0.wrap_style == m.wrap_style,
{
    let l = m.laid_out(width, height);
    let m0 = ScreenModel {
        status_left: seq![],
        status_right: seq![],
        lower_top: (l.height - 1) as nat,
        state: ScreenState::Output,
        use_more: false,
        ..l
    };
    lemma_chars_step_text(m0, m.buffer);
    assert(Seq::<char>::empty() + m.buffer == m.buffer);
}

/// Printing onto a line index that is the text wrapped afresh leaves one
/// that is the longer text wrapped afresh.
pub proof fn lemma_print_keeps_wrap(m: ScreenModel, g: GridModel, s: Seq<char>)
    requires
        m.lines == wrap_all(m.buffer, m.width, m.wrap_style),
    ensures
        m.print_pair(g, s).0.lines == wrap_all(m.print_pair(g, s).0.buffer, m.width, m.wrap_style),
        m.print_pair(g, s).0.width == m.width,
        m.print_pair(g, s).0.height == m.height,
        m.print_pair(g, s).0.wrap_style == m.wrap_style,
{
    if m.selected == WindowLayout::Lower {
        lemma_chars_step_text(m, stored_text(s));
        lemma_wrap_all_append(m.buffer, stored_text(s), m.width, m.wrap_style);
    }
}

/// Resizing keeps the text, and the rendering follows the text alone: after
/// any print onto a freshly wrapped screen, two resizes and a resize back
/// to the first size give the same text and the same lines as before.
pub proof fn lemma_resize_round_trip(
    m: ScreenModel,
    g: GridModel,
    s: Seq<char>,
    w1: nat,
    h1: nat,
    w2: nat,
    h2: nat,
)
    requires
        m.lines == wrap_all(m.buffer, m.width, m.wrap_style),
    ensures
        ({
            let p = m.print_pair(g, s).0;
            let r1 = p.resize_pair(w1, h1).0;
            let r2 = r1.resize_pair(w2, h2).0;
            let r3 = r2.resize_pair(p.width, p.height).0;
            &&& r1.buffer == p.buffer
            &&& r2.buffer == p.buffer
            &&& r3.buffer == p.buffer
            &&& r3.lines == p.lines
        }),
{
    let p = m.print_pair(g, s).0;
    lemma_print_keeps_wrap(m, g, s);
    lemma_resize_rewraps(p, w1, h1);
    let r1 = p.resize_pair(w1, h1).0;
    lemma_resize_rewraps(r1, w2, h2);
    let r2 = r1.resize_pair(w2, h2).0;
    lemma_resize_rewraps(r2, p.width, p.height);
}

/// The characters of `src` from `from` to `to`, appended to `v`.
fn push_range(v: &mut Vec<char>, src: &Vec<char>, from: usize, to: usize)
    requires
        from <= to <= src.len(),
    ensures
        final(v)@ == old(v)@ + src@.subrange(from as int, to as int),
{
    let mut i = from;
    while i < to
        invariant
            from <= i <= to <= src.len(),
            v@ == old(v)@ + src@.subrange(from as int, i as int),
        decreases to - i,
    {
        v.push(src[i]);
        i = i + 1;
        assert(v@ =~= old(v)@ + src@.subrange(from as int, i as int));
    }
}

fn push_spaces(v: &mut Vec<char>, n: usize)
    ensures
        final(v)@ == old(v)@ + spaces(n as nat),
{
    let mut i: usize = 0;
    while i < n
        invariant
            i <= n,
            v@ == old(v)@ + spaces(i as nat),
        decreases n - i,
    {
        v.push(' ');
        i = i + 1;
        assert(v@ =~= old(v)@ + spaces(i as nat));
    }
}

/// The status row for a grid `width` wide.
fn status_chars(left: &str, right: &str, width: usize) -> (r: Vec<char>)
    ensures
        r@ == status_line(left@, right@, width as nat),
{
    let l = chars_of(left);
    let r = chars_of(right);
    let le = if width >= MAX_RIGHT_STATUS_WIDTH + 1 {
        width - MAX_RIGHT_STATUS_WIDTH - 1
    } else {
        0
    };
    let rw = MAX_RIGHT_STATUS_WIDTH + 1;
    let mut v: Vec<char> = Vec::new();
    if l.len() <= le {
        push_range(&mut v, &l, 0, l.len());
        push_spaces(&mut v, le - l.len());
    } else {
        let k = if le >= 4 {
            le - 4
        } else {
            0
        };
        push_range(&mut v, &l, 0, k);
        v.push('.');
        v.push('.');
        v.push('.');
        v.push(' ');
    }
    let ghost lpart = v@;
    if r.len() < rw {
        push_spaces(&mut v, rw - r.len());
        push_range(&mut v, &r, 0, r.len());
    } else {
        push_range(&mut v, &r, r.len() - rw, r.len());
    }
    proof {
        assert(l@.subrange(0, l@.len() as int) == l@);
        assert(r@.subrange(0, r@.len() as int) == r@);
        let sl = status_line(left@, right@, width as nat);
        assert(v@ =~= sl);
    }
    v
}

/// The message drawn on a screen too small.
fn too_small_message(width: usize, height: usize) -> (r: String)
    ensures
        r@ == too_small_text(width as nat, height as nat),
{
    let mut s = String::from_str("WINDOW TOO SMALL.\nMINIMUM SIZE ");
    s.append(decimal_string(MIN_WIDTH).as_str());
    s.append("x");
    s.append(decimal_string(MIN_HEIGHT).as_str());
    s.append("\nCURRENT SIZE ");
    s.append(decimal_string(width).as_str());
    s.append("x");
    s.append(decimal_string(height).as_str());
    s
}

proof fn lemma_cursor_row_col(cursor: nat, width: nat, height: nat)
    requires
        width >= 1,
        cursor <= width * height,
    ensures
        (cursor / width) * width + cursor % width == cursor,
        (cursor / width < height && cursor % width < width) || (cursor / width == height && cursor
            % width == 0),
{
    vstd::arithmetic::div_mod::lemma_fundamental_div_mod(cursor as int, width as int);
    let q = cursor / width;
    let r = cursor % width;
    assert(q * width == width * q) by (nonlinear_arith);
    if q >= height {
        assert(q == height && r == 0) by (nonlinear_arith)
            requires
                cursor == width * q + r,
                0 <= r < width,
                cursor <= width * height,
                q >= height,
                width >= 1,
        ;
    }
}

proof fn lemma_erase_one_wf(o: ScreenModel)
    requires
        o.wf(),
    ensures
        o.erase_one().wf(),
{
    let last = o.lines.last();
    if !(last.length == 0 && o.lines.len() <= 1) {
        lemma_unwrap_last_wf(o.lines, o.buffer, o.width);
        lemma_lines_wf_last(unwrap_last(o.lines), o.buffer.drop_last(), o.width);
        let m = ScreenModel { lines: unwrap_last(o.lines), buffer: o.buffer.drop_last(), ..o };
        if last.length == 0 {
            let s = m.sink();
            assert(s.scroll_top + min_nat(s.lower_height(), s.lines.len()) <= s.lines.len());
        }
    }
}

proof fn lemma_after_push_lines(m: ScreenModel, lines: Seq<LineIndex>)
    requires
        lines.len() == m.lines.len(),
    ensures
        (ScreenModel { lines, ..m }).after_push() == (ScreenModel { lines, ..m.after_push() }),
        (ScreenModel { lines, ..m }).scroll_after_push() == (ScreenModel {
            lines,
            ..m.scroll_after_push()
        }),
{
}

/// The pieces of one step of the wrap engine, as the engine makes them,
/// add up to the step.
proof fn lemma_line_step_parts(
    o: ScreenModel,
    c: char,
    off: usize,
    pushed: bool,
    m1: ScreenModel,
    m2: ScreenModel,
    fin: ScreenModel,
)
    requires
        o.lines.len() >= 1,
        pushed == (c == '\n' || o.lines.last().length >= o.width),
        c == '\n' ==> off == 0,
        c != '\n' && pushed ==> off == if o.wrap_style == WrapStyle::WrapOnPunctuation && c
            != ' ' {
            carried(line_text(o.buffer, o.lines.last()))
        } else {
            0
        },
        off <= o.lines.last().length,
        pushed ==> m1 == (ScreenModel {
            lines: o.lines.update(
                o.lines.len() - 1,
                LineIndex {
                    start: o.lines.last().start,
                    length: (o.lines.last().length - off) as usize,
                },
            ).push(
                LineIndex {
                    start: (o.lines.last().start + (o.lines.last().length - off) + if c == '\n' {
                        1int
                    } else {
                        0
                    }) as usize,
                    length: off,
                },
            ),
            ..o
        }).scroll_after_push(),
        pushed ==> m2 == m1.more_check(),
        !pushed ==> m2 == o,
        c == '\n' ==> fin == m2,
        c != '\n' ==> fin == (ScreenModel {
            lines: m2.lines.update(
                m2.lines.len() - 1,
                LineIndex {
                    start: m2.lines.last().start,
                    length: (m2.lines.last().length + 1) as usize,
                },
            ),
            ..m2
        }),
    ensures
        fin == o.line_step(c),
{
    let w = wrap_step(o.lines, o.buffer, c, o.width, o.wrap_style);
    let k = o.lines.len() - 1;
    let last = o.lines.last();
    let kept = (last.length - off) as usize;
    let a = o.lines.update(k, LineIndex { start: last.start, length: kept });
    if pushed {
        let l1 = a.push(
            LineIndex {
                start: (last.start + kept + if c == '\n' {
                    1int
                } else {
                    0
                }) as usize,
                length: off,
            },
        );
        lemma_after_push_lines(ScreenModel { lines: l1, ..o }, w);
        if c == '\n' {
            assert(a =~= o.lines);
            assert(l1 == w);
        } else {
            assert(fin.lines =~= w);
        }
    }
}

proof fn lemma_after_push_wf(m: ScreenModel)
    requires
        m.width >= 1,
        m.height >= 2,
        m.width * m.height <= usize::MAX,
        1 <= m.upper_bottom <= m.lower_top < m.height,
        m.lines.len() >= 1,
        m.scroll_top + min_nat(m.lower_height(), (m.lines.len() - 1) as nat) <= m.lines.len()
            - 1,
    ensures
        ({
            let r = m.after_push();
            &&& 1 <= r.upper_bottom <= r.lower_top < r.height
            &&& r.scroll_top + min_nat(r.lower_height(), r.lines.len()) <= r.lines.len()
            &&& r.lines == m.lines
            &&& r.buffer == m.buffer
            &&& r.width == m.width
            &&& r.height == m.height
            &&& r.upper_bottom == m.upper_bottom
            &&& r.wrap_style == m.wrap_style
        }),
{
}

proof fn lemma_line_step_wf(m: ScreenModel, c: char)
    requires
        m.wf(),
        m.buffer.len() < MAX_TEXT,
    ensures
        m.char_step(c).wf(),
        m.char_step(c).width == m.width,
        m.char_step(c).height == m.height,
        m.char_step(c).upper_bottom == m.upper_bottom,
        m.char_step(c).wrap_style == m.wrap_style,
        m.char_step(c).lines == wrap_step(m.lines, m.buffer, c, m.width, m.wrap_style),
        m.char_step(c).buffer == m.buffer.push(c),
{
    lemma_wrap_step_wf(m.lines, m.buffer, c, m.width, m.wrap_style);
    lemma_lines_wf_last(
        wrap_step(m.lines, m.buffer, c, m.width, m.wrap_style),
        m.buffer.push(c),
        m.width,
    );
    let m2 = ScreenModel {
        lines: wrap_step(m.lines, m.buffer, c, m.width, m.wrap_style),
        ..m
    };
    if c == '\n' || m.lines.last().length >= m.width {
        lemma_after_push_wf(m2);
    }
}

pub struct AbstractScreen {
    grid: CharGrid,
    pub version: ZCodeVersion,
    pub state: ScreenState,
    pub use_more: bool,
    pub redraw_enabled: bool,
    wrap_style: WrapStyle,
    pub validate_size: bool,
    // One entry per rendered line.
    line_indexes: Vec<LineIndex>,
    // Pre-allocated; only the first `scroll_buffer_length` characters are
    // text.
    scroll_buffer: Vec<char>,
    scroll_buffer_length: usize,
    // Index into the lines of the first one shown in the lower region.
    scroll_window_top: usize,
    // Text entered during the most recent wait for input.
    last_input_buffer: String,
    max_input_length: usize,
    // Where input started, to cap its length and stop backspace there.
    input_start_location: TextLocation,
    status_window: ScreenWindow,
    upper_window: ScreenWindow,
    lower_window: ScreenWindow,
    selected_window: WindowLayout,
    upper_cursor: TextLocation,
    status: StatusBar,
}

impl View for AbstractScreen {
    type V = ScreenModel;

    closed spec fn view(&self) -> ScreenModel {
        ScreenModel {
            lines: self.line_indexes@,
            buffer: self.scroll_buffer@.subrange(0, self.scroll_buffer_length as int),
            width: self.grid@.width,
            height: self.grid@.height,
            upper_bottom: self.upper_window.bottom_index as nat,
            lower_top: self.lower_window.top_index as nat,
            scroll_top: self.scroll_window_top as nat,
            state: self.state,
            use_more: self.use_more,
            redraw_enabled: self.redraw_enabled,
            validate_size: self.validate_size,
            wrap_style: self.wrap_style,
            selected: self.selected_window,
            upper_cursor: self.upper_cursor,
            input_start: self.input_start_location,
            max_input: self.max_input_length as nat,
            last_input: self.last_input_buffer@,
            status_left: self.status.status_left@,
            status_right: self.status.status_right@,
            version: self.version,
        }
    }
}

impl AbstractScreen {
    pub closed spec fn wf(&self) -> bool {
        &&& self@.wf()
        &&& self.grid.wf()
        &&& self.status_window == (ScreenWindow { top_index: 0, bottom_index: STATUS_BAR_HEIGHT })
        &&& self.upper_window.top_index == STATUS_BAR_HEIGHT
        &&& self.lower_window.bottom_index == self.grid@.height
        &&& self.scroll_buffer_length <= self.scroll_buffer.len()
        &&& self.scroll_buffer.len() <= MAX_TEXT + 2 * SCROLL_BUFFER_INITIAL_SIZE
    }

    /// A well-formed screen has a well-formed model and a well-formed grid of
    /// the model's size.
    pub proof fn lemma_wf(&self)
        requires
            self.wf(),
        ensures
            self@.wf(),
            self.grid_view().wf(),
            self.grid_view().width == self@.width,
            self.grid_view().height == self@.height,
    {
    }

    /// All of the scroll buffer's storage, text and spare room.
    pub closed spec fn store(&self) -> Seq<char> {
        self.scroll_buffer@
    }

    /// The grid the screen is drawn on.
    pub closed spec fn grid_view(&self) -> GridModel {
        self.grid@
    }

    pub fn is_size_valid(&self) -> (r: bool)
        requires
            self.wf(),
        ensures
            r == self@.size_valid(),
    {
        if !self.validate_size {
            // Tests may turn size checks off to stay concise
            return true;
        }
        self.grid.height() >= MIN_HEIGHT && self.grid.width() >= MIN_WIDTH
    }

    /// Update the status bar with the provided left and right halves. The
    /// cursor stays where it was.
    pub fn draw_status(&mut self, left: &str, right: &str)
        requires
            old(self).wf(),
        ensures
            final(self).wf(),
            final(self)@ == (ScreenModel {
                status_left: left@,
                status_right: right@,
                ..old(self)@
            }),
            final(self).grid_view() == status_grid(
                old(self).grid_view(),
                status_line(left@, right@, old(self)@.width),
            ),
            final(self).store() == old(self).store(),
    {
        self.status.status_left = left.to_owned();
        self.status.status_right = right.to_owned();
        self.draw_status_row(left, right);
    }

    // Draw the status row, leaving the saved status texts as they are
    fn draw_status_row(&mut self, left: &str, right: &str)
        requires
            old(self).wf(),
        ensures
            final(self).wf(),
            final(self)@ == old(self)@,
            final(self).grid_view() == status_grid(
                old(self).grid_view(),
                status_line(left@, right@, old(self)@.width),
            ),
            final(self).store() == old(self).store(),
            final(self).status_window == old(self).status_window,
            final(self).upper_window == old(self).upper_window,
            final(self).lower_window == old(self).lower_window,
            final(self).scroll_buffer_length == old(self).scroll_buffer_length,
    {
        let width = self.grid.width();
        let line = status_chars(left, right, width);
        let (row, col) = self.grid.get_cur_yx();
        let ghost g0 = self.grid@;
        self.grid.set_reverse(true);
        self.grid.mv(0, 0);
        let n = if line.len() < width {
            line.len()
        } else {
            width
        };
        self.grid.add_range(&line, 0, n);
        self.grid.set_reverse(false);
        proof {
            lemma_cursor_row_col(g0.cursor, g0.width, g0.height);
            assert(line@.subrange(0, n as int) == line@.take(n as int));
        }
        self.grid.mv(row, col);
    }

    /// Blank the grid, draw an empty status row and put the cursor below it.
    pub fn clear(&mut self)
        requires
            old(self).wf(),
        ensures
            final(self).wf(),
            final(self)@ == (ScreenModel {
                status_left: seq![],
                status_right: seq![],
                ..old(self)@
            }),
            final(self).grid_view() == clear_grid(old(self).grid_view()),
            final(self).store() == old(self).store(),
    {
        self.grid.window_clear();
        self.draw_status("", "");
        proof {
            reveal_strlit("");
            assert(""@ =~= Seq::<char>::empty());
        }
        self.grid.mv(STATUS_BAR_HEIGHT, 0);
    }

    // Blank the grid, draw an empty status row and put the cursor below it,
    // leaving the saved status texts as they are
    fn clear_grid_only(&mut self)
        requires
            old(self).wf(),
        ensures
            final(self).wf(),
            final(self)@ == old(self)@,
            final(self).grid_view() == clear_grid(old(self).grid_view()),
    {
        self.grid.window_clear();
        self.draw_status_row("", "");
        proof {
            reveal_strlit("");
            assert(""@ =~= Seq::<char>::empty());
        }
        self.grid.mv(STATUS_BAR_HEIGHT, 0);
    }

    // Draw a line of the text at the grid cursor.
    fn draw_line(&mut self, line: LineIndex)
        requires
            old(self).wf(),
            line_end(line) <= old(self)@.buffer.len(),
        ensures
            final(self).wf(),
            final(self)@ == old(self)@,
            final(self).grid_view() == old(self).grid_view().put_all(
                old(self)@.display_text(line),
            ),
    {
        // When wrapping on break characters, a space is not shown in the first column
        let skip = self.wrap_style == WrapStyle::WrapOnPunctuation && line.length > 0
            && self.scroll_buffer[line.start] == ' ';
        let from = if skip {
            line.start + 1
        } else {
            line.start
        };
        self.grid.add_range(&self.scroll_buffer, from, line.start + line.length);
        proof {
            let t = line_text(self@.buffer, line);
            assert(self.scroll_buffer@.subrange(from as int, line.start + line.length) == if skip {
                t.drop_first()
            } else {
                t
            });
        }
    }

    /// Redraw the lower region (or, on a screen too small, a message).
    pub fn redraw(&mut self)
        requires
            old(self).wf(),
        ensures
            final(self).wf(),
            final(self)@ == old(self)@,
            final(self).grid_view() == old(self)@.redraw_grid(old(self).grid_view()),
    {
        if !self.is_size_valid() {
            // Only the grid is cleared: the status texts are kept for when the
            // screen is large enough again
            self.clear_grid_only();
            self.grid.mv(0, 0);
            let msg = too_small_message(self.grid.width(), self.grid.height());
            self.grid.addstr(msg.as_str());
        } else if self.redraw_enabled {
            let ghost m = self@;
            let ghost g0 = self.grid@;
            let h = self.lower_window.height();
            let n = self.line_indexes.len();
            let max_line = if h < n {
                h
            } else {
                n
            };
            let paging = self.state == ScreenState::WaitingForMore || self.state
                == ScreenState::WaitingForMoreThenLine;
            let mut i: usize = 0;
            while i < max_line
                invariant
                    self.wf(),
                    self@ == m,
                    m.wf(),
                    max_line == m.max_line(),
                    paging == m.paging(),
                    self.lower_window.top_index == m.lower_top,
                    i <= max_line,
                    self.grid@ == m.draw_rows(g0, i as nat),
                decreases max_line - i,
            {
                self.grid.mv(i + self.lower_window.top_index, 0);
                self.grid.clrtoeol();
                let k = i + self.scroll_window_top;
                if i + 1 < max_line || !paging {
                    proof {
                        lemma_line_bounds(m.lines, m.buffer, m.width, k as int);
                    }
                    let line = self.line_indexes[k];
                    self.draw_line(line);
                } else {
                    // While paging, the last row only holds the marker
                    self.grid.addstr("[MORE]");
                    proof {
                        reveal_strlit("[MORE]");
                        assert("[MORE]"@ =~= more_marker());
                    }
                }
                i = i + 1;
            }
        }
    }

    // Print to the end of the lower region.
    fn print_to_lower(&mut self, s: &str)
        requires
            old(self).wf(),
            old(self)@.buffer.len() + s@.len() <= MAX_TEXT,
        ensures
            final(self).wf(),
            (final(self)@, final(self).grid_view()) == old(self)@.print_lower_pair(
                old(self).grid_view(),
                s@,
            ),
    {
        let chars = chars_of(s);
        let ghost st = stored_text(s@);
        let mut i: usize = 0;
        while i < chars.len()
            invariant
                self.wf(),
                chars@ == s@,
                st == stored_text(s@),
                i <= chars.len(),
                old(self)@.buffer.len() + s@.len() <= MAX_TEXT,
                self@ == old(self)@.chars_step(st.take(i as int)),
                self@.buffer.len() == old(self)@.buffer.len() + i,
                self.grid == old(self).grid,
            decreases chars.len() - i,
        {
            let d = stored(chars[i]);
            proof {
                lemma_line_step_wf(self@, d);
            }
            self.update_line_indexes_for_char(d);
            self.push_scroll_buffer(d);
            i = i + 1;
            assert(st.take(i as int).drop_last() == st.take(i - 1));
        }
        assert(st.take(chars.len() as int) == st);
        if self.state == ScreenState::Output || self.state == ScreenState::WaitingForMore {
            self.redraw();
        }
    }

    // Print at the cursor location in the upper window. No scrolling or wrapping
    fn print_to_upper(&mut self, s: &str)
        requires
            old(self).wf(),
        ensures
            final(self).wf(),
            (final(self)@, final(self).grid_view()) == old(self)@.print_upper_pair(
                old(self).grid_view(),
                s@,
            ),
    {
        if self.upper_window.height() > 0 {
            if self.upper_cursor.line_start >= self.upper_window.top_index
                && self.upper_cursor.line_start <= self.upper_window.bottom_index {
                let chars = chars_of(s);
                let bottom = self.upper_window.bottom_index;
                upper_chars(&mut self.grid, &mut self.upper_cursor, bottom, &chars);
            }
        }
    }

    /// Print the text at the current cursor location in the selected region.
    pub fn print(&mut self, s: &str)
        requires
            old(self).wf(),
            old(self)@.buffer.len() + s@.len() <= MAX_TEXT,
        ensures
            final(self).wf(),
            (final(self)@, final(self).grid_view()) == old(self)@.print_pair(
                old(self).grid_view(),
                s@,
            ),
    {
        match self.selected_window {
            WindowLayout::Lower => {
                self.print_to_lower(s);
            },
            WindowLayout::Upper => {
                self.print_to_upper(s);
            },
        }
    }

    pub fn print_char(&mut self, c: char)
        requires
            old(self).wf(),
            old(self)@.buffer.len() < MAX_TEXT,
        ensures
            final(self).wf(),
            (final(self)@, final(self).grid_view()) == old(self)@.print_pair(
                old(self).grid_view(),
                seq![c],
            ),
    {
        let mut s = String::new();
        push_char(&mut s, c);
        assert(s@ =~= seq![c]);
        self.print(s.as_str());
    }

    // The bookkeeping after the last line has gone
    fn pop_line(&mut self)
        requires
            old(self).grid.wf(),
            old(self).lower_window.bottom_index == old(self).grid@.height,
            old(self).upper_window.top_index == STATUS_BAR_HEIGHT,
            1 <= old(self)@.upper_bottom <= old(self)@.lower_top < old(self)@.height,
            old(self)@.lines.len() >= 1,
        ensures
            final(self)@ == old(self)@.sink(),
            final(self).grid == old(self).grid,
            final(self).status_window == old(self).status_window,
            final(self).upper_window == old(self).upper_window,
            final(self).lower_window.bottom_index == old(self).lower_window.bottom_index,
            final(self).scroll_buffer_length == old(self).scroll_buffer_length,
            final(self).scroll_buffer@ == old(self).scroll_buffer@,
    {
        if self.lower_window.top_index != self.upper_window.bottom_index {
            if self.lower_window.top_index + 1 < self.lower_window.bottom_index {
                self.lower_window.top_index = self.lower_window.top_index + 1;
            }
        } else if self.scroll_window_top > 0 {
            self.scroll_window_top = self.scroll_window_top - 1;
        }
        self.clamp_scroll();
    }

    // Keep the scroll position within the text
    fn clamp_scroll(&mut self)
        requires
            old(self).lower_window.bottom_index == old(self)@.height,
            old(self)@.lower_top <= old(self)@.height,
            old(self)@.lines.len() >= 1,
        ensures
            final(self)@ == old(self)@.clamp_scroll(),
            final(self).grid == old(self).grid,
            final(self).status_window == old(self).status_window,
            final(self).upper_window == old(self).upper_window,
            final(self).lower_window == old(self).lower_window,
            final(self).scroll_buffer_length == old(self).scroll_buffer_length,
            final(self).scroll_buffer@ == old(self).scroll_buffer@,
    {
        let h = self.lower_window.height();
        let n = self.line_indexes.len();
        let max_line = if h < n {
            h
        } else {
            n
        };
        if self.scroll_window_top > n - max_line {
            self.scroll_window_top = n - max_line;
        }
    }

    // Take back the last character of the text
    #[verifier::rlimit(60)]
    fn erase_one(&mut self)
        requires
            old(self).wf(),
        ensures
            final(self).wf(),
            final(self)@ == old(self)@.erase_one(),
            final(self).grid == old(self).grid,
    {
        let ghost o = self@;
        let n = self.line_indexes.len();
        let last = self.line_indexes[n - 1];
        if last.length == 0 && n <= 1 {
            return ;
        }
        proof {
            lemma_unwrap_last_wf(o.lines, o.buffer, o.width);
            lemma_erase_one_wf(o);
        }
        let _ = self.pop_scroll_buffer();
        if last.length > 0 {
            // Line has characters, remove latest
            self.line_indexes.set(n - 1, LineIndex { start: last.start, length: last.length - 1 });
            assert(self@ == (ScreenModel {
                lines: unwrap_last(o.lines),
                buffer: o.buffer.drop_last(),
                ..o
            }));
        } else {
            // Line has no characters: remove it, with the newline before it or
            // with the last character of the line it was wrapped from
            let prev = self.line_indexes[n - 2];
            let _ = self.line_indexes.pop();
            if last.start != prev.start + prev.length + 1 {
                self.line_indexes.set(
                    n - 2,
                    LineIndex { start: prev.start, length: prev.length - 1 },
                );
            }
            assert(self@.lines =~= unwrap_last(o.lines));
            self.pop_line();
        }
    }

    /// Erase `char_count` characters, working backwards from the end of the
    /// text.
    pub fn erase_chars(&mut self, char_count: usize)
        requires
            old(self).wf(),
        ensures
            final(self).wf(),
            (final(self)@, final(self).grid_view()) == old(self)@.erase_pair(
                old(self).grid_view(),
                char_count as nat,
            ),
    {
        let mut i: usize = 0;
        while i < char_count
            invariant
                self.wf(),
                i <= char_count,
                self@ == old(self)@.erase_n(i as nat),
                self.grid == old(self).grid,
            decreases char_count - i,
        {
            self.erase_one();
            i = i + 1;
        }
        self.redraw();
    }

    /// Scroll up a page of text.
    pub fn scroll_page_up(&mut self)
        requires
            old(self).wf(),
        ensures
            final(self).wf(),
            (final(self)@, final(self).grid_view()) == old(self)@.scroll_up_pair(
                old(self).grid_view(),
            ),
    {
        // A page is the height of the lower region
        let height = self.lower_window.height();
        if self.scroll_window_top >= height {
            self.scroll_window_top = self.scroll_window_top - height;
        } else {
            self.scroll_window_top = 0;
        }
        self.redraw();
    }

    /// Scroll down a page of text.
    pub fn scroll_page_down(&mut self)
        requires
            old(self).wf(),
        ensures
            final(self).wf(),
            (final(self)@, final(self).grid_view()) == old(self)@.scroll_down_pair(
                old(self).grid_view(),
            ),
    {
        // A page is the height of the lower region
        let height = self.lower_window.height();
        let bottom = self.calculate_bottom_scroll_window();
        let top = self.scroll_window_top;
        self.scroll_window_top = if top >= bottom || bottom - top <= height {
            bottom
        } else {
            top + height
        };
        self.redraw();
    }

    // Scroll the lower region to the end of the text
    fn scroll_to_bottom(&mut self)
        requires
            old(self).lower_window.bottom_index == old(self)@.height,
            old(self)@.lower_top <= old(self)@.height,
            old(self)@.lines.len() >= 1,
        ensures
            final(self)@ == old(self)@.scroll_to_bottom(),
            final(self).grid == old(self).grid,
            final(self).status_window == old(self).status_window,
            final(self).upper_window == old(self).upper_window,
            final(self).lower_window == old(self).lower_window,
            final(self).scroll_buffer_length == old(self).scroll_buffer_length,
            final(self).scroll_buffer@ == old(self).scroll_buffer@,
    {
        // Before the regions meet, the lower one is still rising: no scrolling
        if self.lower_window.top_index == self.upper_window.bottom_index
            && self.lower_window.height() < self.line_indexes.len() {
            self.scroll_window_top = self.line_indexes.len() - self.lower_window.height();
        } else {
            self.clamp_scroll();
        }
    }

    // Blank rows `top_index` up to `bottom_index`
    fn clear_window(&mut self, top_index: usize, bottom_index: usize)
        requires
            old(self).wf(),
            top_index <= bottom_index < old(self)@.height,
        ensures
            final(self).wf(),
            final(self)@ == old(self)@,
            final(self).grid_view() == clear_rows(
                old(self).grid_view(),
                top_index as nat,
                (bottom_index - top_index) as nat,
            ),
    {
        let mut i = top_index;
        while i < bottom_index
            invariant
                self.wf(),
                top_index <= i <= bottom_index < self@.height,
                self@ == old(self)@,
                self.grid_view() == clear_rows(
                    old(self).grid_view(),
                    top_index as nat,
                    (i - top_index) as nat,
                ),
                self.status_window == old(self).status_window,
                self.upper_window == old(self).upper_window,
                self.lower_window == old(self).lower_window,
                self.scroll_buffer_length == old(self).scroll_buffer_length,
                self.scroll_buffer@ == old(self).scroll_buffer@,
            decreases bottom_index - i,
        {
            self.grid.mv(i, 0);
            self.grid.clrtoeol();
            i = i + 1;
        }
    }

    /// If the lower region is selected, resize the upper region to `lines`
    /// rows.
    #[verifier::rlimit(80)]
    pub fn split_window(&mut self, lines: usize)
        requires
            old(self).wf(),
        ensures
            final(self).wf(),
            (final(self)@, final(self).grid_view()) == old(self)@.split_pair(
                old(self).grid_view(),
                lines as nat,
            ),
    {
        if self.selected_window == WindowLayout::Lower {
            if lines == 0 {
                // Collapse the upper region
                if self.upper_window.bottom_index == self.lower_window.top_index {
                    self.lower_window.top_index = STATUS_BAR_HEIGHT;
                }
                self.upper_window.bottom_index = STATUS_BAR_HEIGHT;
            } else {
                // Leave the lower region at least a row
                let max_lines = self.grid.height() - STATUS_BAR_HEIGHT - 1;
                let tmplines = if lines < max_lines {
                    lines
                } else {
                    max_lines
                };
                let new_bottom = STATUS_BAR_HEIGHT + tmplines;
                // Newly shown upper rows start blank
                self.clear_window(STATUS_BAR_HEIGHT, new_bottom);
                // The lower region follows only once attached; while still
                // rising it is moved down only where the upper one reaches it
                if self.upper_window.bottom_index == self.lower_window.top_index
                    || self.lower_window.top_index < new_bottom {
                    self.lower_window.top_index = new_bottom;
                }
                self.upper_window.bottom_index = new_bottom;
            }
            self.scroll_to_bottom();
            self.redraw();
        }
    }

    /// Select the region that prints go to; selecting the upper one puts
    /// its cursor at its top left.
    pub fn set_window(&mut self, window: WindowLayout)
        requires
            old(self).wf(),
        ensures
            final(self).wf(),
            final(self).grid_view() == old(self).grid_view(),
            final(self)@ == if window == WindowLayout::Upper {
                ScreenModel {
                    selected: window,
                    upper_cursor: TextLocation {
                        line_start: STATUS_BAR_HEIGHT,
                        char_index: 0,
                        line_width: old(self)@.width as usize,
                    },
                    ..old(self)@
                }
            } else {
                ScreenModel { selected: window, ..old(self)@ }
            },
    {
        match window {
            WindowLayout::Upper => {
                self.selected_window = window;
                self.upper_cursor = TextLocation {
                    line_start: self.upper_window.top_index,
                    char_index: 0,
                    line_width: self.grid.width(),
                };
            },
            WindowLayout::Lower => {
                self.selected_window = window;
            },
        }
    }

    // The cursor is the end of the last line.
    fn get_cursor_location(&self) -> (r: TextLocation)
        requires
            self.wf(),
        ensures
            r == self@.cursor_location(),
    {
        TextLocation {
            line_start: self.line_indexes.len(),
            line_width: self.grid.width(),
            char_index: self.line_indexes[self.line_indexes.len() - 1].length,
        }
    }

    /// Wait for a whole line of at most `max_input_length` characters.
    pub fn wait_for_line(&mut self, max_input_length: usize)
        requires
            old(self).wf(),
        ensures
            final(self).wf(),
            final(self).grid_view() == old(self).grid_view(),
            final(self)@ == old(self)@.wait_for_line_model(max_input_length as nat),
    {
        // Already waiting for a line: nothing to do
        if self.state == ScreenState::WaitingForLine || self.state
            == ScreenState::WaitingForMoreThenLine {
            return ;
        }
        self.max_input_length = max_input_length;
        self.last_input_buffer = String::new();
        self.input_start_location = self.get_cursor_location();
        match self.state {
            ScreenState::WaitingForMore => {
                self.state = ScreenState::WaitingForMoreThenLine;
            },
            _ => {
                self.state = ScreenState::WaitingForLine;
            },
        }
    }

    // A page advance while paging
    fn advance_page(&mut self)
        requires
            old(self).wf(),
            old(self)@.paging(),
        ensures
            final(self).wf(),
            (final(self)@, final(self).grid_view()) == old(self)@.page_pair(old(self).grid_view()),
    {
        let then_line = self.state == ScreenState::WaitingForMoreThenLine;
        self.scroll_page_down();
        if self.scroll_window_top == self.calculate_bottom_scroll_window() {
            // Only leave paging at the end of the text
            self.state = if then_line {
                ScreenState::WaitingForLine
            } else {
                ScreenState::Output
            };
        }
        self.redraw();
    }

    // A keystroke while taking a line
    fn line_input(&mut self, c: char) -> (r: bool)
        requires
            old(self).wf(),
            old(self)@.state == ScreenState::WaitingForLine,
            old(self)@.buffer.len() < MAX_TEXT,
        ensures
            final(self).wf(),
            (final(self)@, final(self).grid_view(), r) == old(self)@.line_input_pair(
                old(self).grid_view(),
                c,
            ),
    {
        // Any key scrolls to the end of the text
        self.scroll_window_top = self.calculate_bottom_scroll_window();
        let cursor = self.get_cursor_location().calculate_absolute_location();
        let start = self.input_start_location.calculate_absolute_location();
        if c == '\n' {
            self.state = ScreenState::Output;
            self.print_char(c);
            return true;
        } else if c == BACKSPACE {
            if !self.last_input_buffer.as_str().is_empty() && cursor > start {
                pop_char(&mut self.last_input_buffer);
                self.erase_chars(1);
            }
        } else if cursor < start || cursor - start < self.max_input_length as u128 {
            // Stop taking characters at the requested length
            push_char(&mut self.last_input_buffer, c);
            self.print_char(c);
            self.redraw();
        }
        false
    }

    /// Take one keystroke. Returns true exactly when a line of input has
    /// been completed; it is then in `last_input`.
    pub fn process_input(&mut self, c: char) -> (r: bool)
        requires
            old(self).wf(),
            old(self)@.buffer.len() < MAX_TEXT,
        ensures
            final(self).wf(),
            (final(self)@, final(self).grid_view(), r) == old(self)@.input_pair(
                old(self).grid_view(),
                c,
            ),
    {
        match self.state {
            ScreenState::WaitingForMore | ScreenState::WaitingForMoreThenLine => {
                self.advance_page();
                false
            },
            ScreenState::WaitingForLine => self.line_input(c),
            ScreenState::Output => false,
        }
    }

    /// Cancel any wait: back to output, the partial input dropped.
    pub fn stop_waiting_for_input(&mut self)
        requires
            old(self).wf(),
        ensures
            final(self).wf(),
            final(self).grid_view() == old(self).grid_view(),
            final(self)@ == (ScreenModel {
                state: ScreenState::Output,
                last_input: seq![],
                ..old(self)@
            }),
    {
        self.state = ScreenState::Output;
        // Any partial input is dropped
        self.last_input_buffer = String::new();
    }

    pub fn waiting_for_input(&self) -> (r: bool)
        ensures
            r == (self@.state != ScreenState::Output),
    {
        self.state != ScreenState::Output
    }

    /// The cursor shows while a line is being typed.
    pub fn is_cursor_visible(&self) -> (r: bool)
        ensures
            r == (self@.state == ScreenState::WaitingForLine),
    {
        self.state == ScreenState::WaitingForLine
    }

    /// The text entered during the most recent wait for input.
    pub fn last_input(&self) -> (r: String)
        ensures
            r@ == self@.last_input,
    {
        self.last_input_buffer.clone()
    }

    /// Turn redraw back on and redraw the screen.
    pub fn enable_redraw(&mut self)
        requires
            old(self).wf(),
        ensures
            final(self).wf(),
            (final(self)@, final(self).grid_view()) == (ScreenModel {
                redraw_enabled: true,
                ..old(self)@
            }).redraw_pair(old(self).grid_view()),
    {
        self.redraw_enabled = true;
        self.redraw();
    }

    /// Set whether MORE paging is used.
    pub fn use_more(&mut self, b: bool)
        requires
            old(self).wf(),
        ensures
            final(self).wf(),
            final(self).grid_view() == old(self).grid_view(),
            final(self)@ == (ScreenModel { use_more: b, ..old(self)@ }),
    {
        self.use_more = b;
    }

    /// The width of the screen, in characters.
    pub fn get_screen_width(&self) -> (r: usize)
        ensures
            r == self@.width,
    {
        self.grid.width()
    }

    /// The height of the screen, in characters.
    pub fn get_screen_height(&self) -> (r: usize)
        ensures
            r == self@.height,
    {
        self.grid.height()
    }

    /// A line for debugging: text length, line count, the last line's
    /// start and length, and the state.
    pub fn get_state_string(&self) -> (r: String)
        requires
            self.wf(),
        ensures
            r@ == "ln ("@ + decimal(self@.buffer.len()) + ") idx ("@ + decimal(self@.lines.len())
                + ") lastidx ("@ + decimal(self@.lines.last().start as nat) + "x"@ + decimal(
                self@.lines.last().length as nat,
            ) + ") "@ + state_name(self@.state),
    {
        let l = self.line_indexes[self.line_indexes.len() - 1];
        let mut s = String::from_str("ln (");
        s.append(decimal_string(self.scroll_buffer_length).as_str());
        s.append(") idx (");
        s.append(decimal_string(self.line_indexes.len()).as_str());
        s.append(") lastidx (");
        s.append(decimal_string(l.start).as_str());
        s.append("x");
        s.append(decimal_string(l.length).as_str());
        s.append(") ");
        s.append(
            match self.state {
                ScreenState::Output => "Output",
                ScreenState::WaitingForLine => "WaitingForLine",
                ScreenState::WaitingForMore => "WaitingForMore",
                ScreenState::WaitingForMoreThenLine => "WaitingForMoreThenLine",
            },
        );
        s
    }

    /// How many characters the text holds.
    pub fn text_len(&self) -> (r: usize)
        requires
            self.wf(),
        ensures
            r == self@.buffer.len(),
    {
        self.scroll_buffer_length
    }

    pub fn grid(&self) -> (r: &CharGrid)
        ensures
            r@ == self.grid_view(),
            self.wf() ==> r.wf(),
    {
        &self.grid
    }

    pub fn wrap_style(&self) -> (r: WrapStyle)
        ensures
            r == self@.wrap_style,
    {
        self.wrap_style
    }

    /// Start the text from the bottom row: the lower region rises from
    /// there as lines come, until it meets the upper region.
    fn clear_to_bottom(&mut self)
        requires
            old(self).wf(),
            old(self)@.lines.len() == 1,
            old(self)@.scroll_top == 0,
        ensures
            final(self).wf(),
            final(self)@ == (ScreenModel {
                status_left: seq![],
                status_right: seq![],
                lower_top: (old(self)@.height - 1) as nat,
                ..old(self)@
            }),
            final(self).grid_view() == clear_grid(old(self).grid_view()),
            final(self).scroll_buffer@ == old(self).scroll_buffer@,
    {
        self.clear();
        self.lower_window.top_index = self.lower_window.bottom_index - 1;
    }

    // Wrap the first `text_len` characters of the scroll buffer afresh onto a
    // laid out screen with an empty line index
    fn rebuild(&mut self, text_len: usize)
        requires
            old(self).wf(),
            old(self)@.lines == first_line(),
            old(self)@.buffer.len() == 0,
            old(self)@.scroll_top == 0,
            text_len <= old(self).scroll_buffer@.len(),
            text_len <= MAX_TEXT,
        ensures
            final(self).wf(),
            (final(self)@, final(self).grid_view()) == old(self)@.rebuild_pair(
                old(self).grid_view(),
                old(self).scroll_buffer@.subrange(0, text_len as int),
            ),
    {
        let ghost text = self.scroll_buffer@.subrange(0, text_len as int);
        let old_status_left = self.status.status_left.clone();
        let old_status_right = self.status.status_right.clone();
        self.clear_to_bottom();
        let use_more_preserved = self.use_more;
        let state_preserved = self.state;
        self.state = ScreenState::Output;
        self.use_more = false;
        let ghost m0 = self@;
        let ghost g1 = self.grid@;
        let mut i: usize = 0;
        while i < text_len
            invariant
                self.wf(),
                i <= text_len <= MAX_TEXT,
                text_len <= self.scroll_buffer@.len(),
                text == self.scroll_buffer@.subrange(0, text_len as int),
                self.scroll_buffer_length == i,
                self@ == m0.chars_step(text.take(i as int)),
                self.grid@ == g1,
            decreases text_len - i,
        {
            let c = self.scroll_buffer[i];
            proof {
                lemma_line_step_wf(self@, c);
            }
            self.update_line_indexes_for_char(c);
            self.scroll_buffer_length = i + 1;
            i = i + 1;
            assert(text.take(i as int).drop_last() == text.take(i - 1));
            assert(self.scroll_buffer@.subrange(0, i as int) == self.scroll_buffer@.subrange(
                0,
                i - 1,
            ).push(c));
        }
        assert(text.take(text_len as int) == text);
        self.use_more = use_more_preserved;
        self.state = state_preserved;
        self.draw_status(old_status_left.as_str(), old_status_right.as_str());
        self.input_start_location = self.get_cursor_location();
        self.redraw();
    }

    // Empty the line index and lay the regions out for the grid's size; the
    // text stays in the scroll buffer
    fn lay_out(&mut self) -> (text_len: usize)
        requires
            old(self).grid.wf(),
            old(self)@.height >= 2,
            old(self).status_window == (ScreenWindow { top_index: 0, bottom_index: STATUS_BAR_HEIGHT }),
            old(self).upper_window.top_index == STATUS_BAR_HEIGHT,
            old(self).upper_window.bottom_index >= STATUS_BAR_HEIGHT,
            old(self).scroll_buffer_length <= old(self).scroll_buffer.len(),
            old(self).scroll_buffer.len() <= MAX_TEXT + 2 * SCROLL_BUFFER_INITIAL_SIZE,
            old(self).scroll_buffer_length <= MAX_TEXT,
        ensures
            final(self).wf(),
            final(self)@ == old(self)@.laid_out(old(self)@.width, old(self)@.height),
            final(self).grid == old(self).grid,
            text_len == old(self).scroll_buffer_length,
            final(self).scroll_buffer@ == old(self).scroll_buffer@,
            old(self)@.buffer == final(self).scroll_buffer@.subrange(0, text_len as int),
    {
        let text_len = self.scroll_buffer_length;
        let old_height = self.upper_window.height();
        let max_height = self.grid.height() - STATUS_BAR_HEIGHT - 1;
        let upper_height = if old_height < max_height {
            old_height
        } else {
            max_height
        };
        let mut lines: Vec<LineIndex> = Vec::new();
        lines.push(LineIndex { start: 0, length: 0 });
        self.line_indexes = lines;
        self.scroll_buffer_length = 0;
        self.scroll_window_top = 0;
        self.upper_window.bottom_index = STATUS_BAR_HEIGHT + upper_height;
        self.lower_window = ScreenWindow {
            top_index: self.upper_window.bottom_index,
            bottom_index: self.grid.height(),
        };
        proof {
            reveal(lines_wf);
            assert(self@.lines =~= first_line());
            assert(self@.buffer =~= Seq::<char>::empty());
        }
        text_len
    }

    /// Lay the regions out again and wrap the whole text afresh (when
    /// `force` is set; the grid only changes size through `resize`).
    pub fn recalculate_and_redraw(&mut self, force: bool)
        requires
            old(self).wf(),
        ensures
            final(self).wf(),
            (final(self)@, final(self).grid_view()) == if force {
                old(self)@.recalc_pair(old(self).grid_view())
            } else {
                (old(self)@, old(self).grid_view())
            },
    {
        if force {
            let text_len = self.lay_out();
            self.rebuild(text_len);
        }
    }

    /// Replace the grid with a blank one `width` × `height` and wrap the
    /// whole text afresh at the new width.
    pub fn resize(&mut self, width: usize, height: usize)
        requires
            old(self).wf(),
            width >= 1,
            height >= 2,
            width * height <= usize::MAX,
        ensures
            final(self).wf(),
            (final(self)@, final(self).grid_view()) == old(self)@.resize_pair(
                width as nat,
                height as nat,
            ),
    {
        self.grid = CharGrid::create(width, height);
        let text_len = self.lay_out();
        self.rebuild(text_len);
    }

    /// Choose the wrap policy; the whole text is wrapped afresh with it.
    pub fn set_wrap_style(&mut self, style: WrapStyle)
        requires
            old(self).wf(),
        ensures
            final(self).wf(),
            (final(self)@, final(self).grid_view()) == (ScreenModel {
                wrap_style: style,
                ..old(self)@
            }).recalc_pair(old(self).grid_view()),
    {
        self.wrap_style = style;
        self.recalculate_and_redraw(true);
    }

    /// Set the story version and lay the screen out.
    pub fn initialize(&mut self, version: ZCodeVersion)
        requires
            old(self).wf(),
        ensures
            final(self).wf(),
            (final(self)@, final(self).grid_view()) == (ScreenModel {
                version,
                ..old(self)@
            }).recalc_pair(old(self).grid_view()),
    {
        self.version = version;
        self.recalculate_and_redraw(true);
    }

    /// A new screen: an empty text on a blank default-size grid, output to
    /// the lower region.
    pub fn create() -> (r: AbstractScreen)
        ensures
            r.wf(),
            r@ == initial_model(),
            r.grid_view() == blank_grid(GRID_WIDTH as nat, GRID_HEIGHT as nat),
    {
        let mut lines: Vec<LineIndex> = Vec::new();
        lines.push(LineIndex { start: 0, length: 0 });
        let mut scroll_buffer: Vec<char> = Vec::new();
        scroll_buffer.resize(SCROLL_BUFFER_INITIAL_SIZE, ' ');
        let r = AbstractScreen {
            grid: CharGrid::create(GRID_WIDTH, GRID_HEIGHT),
            version: ZCodeVersion::V1,
            line_indexes: lines,
            scroll_buffer,
            scroll_buffer_length: 0,
            validate_size: true,
            status: StatusBar { status_left: String::new(), status_right: String::new() },
            state: ScreenState::Output,
            last_input_buffer: String::new(),
            max_input_length: 0,
            use_more: false,
            scroll_window_top: 0,
            wrap_style: WrapStyle::WrapOnPunctuation,
            input_start_location: TextLocation::empty(),
            status_window: ScreenWindow { top_index: 0, bottom_index: STATUS_BAR_HEIGHT },
            upper_window: ScreenWindow {
                top_index: STATUS_BAR_HEIGHT,
                bottom_index: STATUS_BAR_HEIGHT,
            },
            // The text starts on the bottom row
            lower_window: ScreenWindow { top_index: GRID_HEIGHT - 1, bottom_index: GRID_HEIGHT },
            selected_window: WindowLayout::Lower,
            upper_cursor: TextLocation::empty(),
            redraw_enabled: true,
        };
        proof {
            reveal(lines_wf);
            assert(r@.lines =~= first_line());
            assert(r@.buffer =~= Seq::<char>::empty());
            assert(r@ == initial_model());
        }
        r
    }

    // Add a char to the scroll buffer
    fn push_scroll_buffer(&mut self, c: char)
        requires
            old(self).scroll_buffer_length <= old(self).scroll_buffer.len(),
            old(self).scroll_buffer.len() <= MAX_TEXT + 2 * SCROLL_BUFFER_INITIAL_SIZE,
            old(self)@.buffer.len() < MAX_TEXT,
        ensures
            final(self)@ == (ScreenModel { buffer: old(self)@.buffer.push(c), ..old(self)@ }),
            final(self).grid == old(self).grid,
            final(self).status_window == old(self).status_window,
            final(self).upper_window == old(self).upper_window,
            final(self).lower_window == old(self).lower_window,
            final(self).scroll_buffer_length <= final(self).scroll_buffer.len(),
            final(self).scroll_buffer.len() <= MAX_TEXT + 2 * SCROLL_BUFFER_INITIAL_SIZE,
    {
        let len = self.scroll_buffer.len();
        if self.scroll_buffer_length + 1 >= len {
            self.scroll_buffer.resize(len + SCROLL_BUFFER_INITIAL_SIZE, ' ');
        }
        let ghost pre = self.scroll_buffer@;
        let i = self.scroll_buffer_length;
        self.scroll_buffer.set(i, c);
        self.scroll_buffer_length = i + 1;
        assert(self.scroll_buffer@.subrange(0, i + 1) == old(self)@.buffer.push(c));
    }

    // Remove the last char from the scroll buffer and return it
    fn pop_scroll_buffer(&mut self) -> (c: char)
        requires
            old(self).wf(),
            old(self)@.buffer.len() > 0,
        ensures
            c == old(self)@.buffer.last(),
            final(self)@ == (ScreenModel { buffer: old(self)@.buffer.drop_last(), ..old(self)@ }),
            final(self).grid == old(self).grid,
            final(self).status_window == old(self).status_window,
            final(self).upper_window == old(self).upper_window,
            final(self).lower_window == old(self).lower_window,
            final(self).scroll_buffer@.len() == old(self).scroll_buffer@.len(),
            final(self).scroll_buffer_length == old(self).scroll_buffer_length - 1,
    {
        let i = self.scroll_buffer_length - 1;
        let c = self.scroll_buffer[i];
        self.scroll_buffer_length = i;
        assert(self.scroll_buffer@.subrange(0, i as int) == old(self)@.buffer.drop_last());
        c
    }

    /// How many trailing characters of the last line move on when it wraps.
    fn carried_count(&self) -> (r: usize)
        requires
            self.wf(),
        ensures
            r == carried(line_text(self@.buffer, self@.lines.last())),
    {
        let n = self.line_indexes.len();
        let last = self.line_indexes[n - 1];
        let ghost t = line_text(self@.buffer, last);
        proof {
            lemma_lines_wf_last(self@.lines, self@.buffer, self@.width);
            lemma_last_break_range(t);
        }
        let mut i = last.length;
        while i > 0
            invariant
                self.wf(),
                last == self@.lines.last(),
                t == line_text(self@.buffer, last),
                t.len() == last.length,
                line_end(last) == self@.buffer.len(),
                i <= last.length,
                forall|j: int| i <= j < last.length ==> !wrap_char(#[trigger] t[j]),
                -1 <= last_break(t) < t.len(),
                last_break(t) >= 0 ==> wrap_char(t[last_break(t)]),
                forall|j: int| last_break(t) < j < t.len() ==> !wrap_char(#[trigger] t[j]),
            decreases i,
        {
            i = i - 1;
            assert(t[i as int] == self.scroll_buffer@[last.start + i]);
            if is_wrap_char(self.scroll_buffer[last.start + i]) {
                assert(last_break(t) == i);
                return last.length - i - 1;
            }
        }
        assert(last_break(t) == -1);
        0
    }

    // Return the scroll window top value that matches the bottom of the text buffer
    fn calculate_bottom_scroll_window(&self) -> (r: usize)
        requires
            self.wf(),
        ensures
            r == self@.bottom_scroll(),
    {
        if self.lower_window.top_index != self.upper_window.bottom_index || self.lower_window.height()
            > self.line_indexes.len() {
            return 0;
        }
        self.line_indexes.len() - self.lower_window.height()
    }

    fn switch_to_more_state_if_needed(&mut self)
        requires
            old(self).grid.wf(),
            old(self).lower_window.bottom_index == old(self).grid@.height,
            old(self)@.lower_top <= old(self)@.height,
            old(self)@.lines.len() >= 1,
        ensures
            final(self)@ == old(self)@.more_check(),
            final(self).grid == old(self).grid,
            final(self).status_window == old(self).status_window,
            final(self).upper_window == old(self).upper_window,
            final(self).lower_window == old(self).lower_window,
            final(self).scroll_buffer_length == old(self).scroll_buffer_length,
            final(self).scroll_buffer@ == old(self).scroll_buffer@,
    {
        let n = self.line_indexes.len();
        let h = self.lower_window.height();
        if self.use_more && (n as u128) > (self.input_start_location.line_start as u128) + (h as u128)
            && self.state == ScreenState::Output {
            self.state = ScreenState::WaitingForMore;
            // Show the page boundary: the line just output and the [MORE] line itself.
            self.scroll_window_top = if n - h >= 2 {
                n - h - 2
            } else {
                0
            };
        }
    }

    // Add a new line to the bottom of the screen and update the scroll window
    fn push_line(&mut self, scroll: bool, length_offset: usize, start_offset: usize)
        requires
            old(self).wf(),
            length_offset <= old(self)@.lines.last().length,
            start_offset <= 1,
            old(self)@.buffer.len() < MAX_TEXT,
            scroll == (old(self).state == ScreenState::Output || old(self).state
                == ScreenState::WaitingForLine),
        ensures
            final(self).grid == old(self).grid,
            final(self).status_window == old(self).status_window,
            final(self).upper_window == old(self).upper_window,
            final(self).lower_window.bottom_index == old(self).lower_window.bottom_index,
            final(self).scroll_buffer_length == old(self).scroll_buffer_length,
            final(self).scroll_buffer@ == old(self).scroll_buffer@,
            ({
                let o = old(self)@;
                let last = o.lines.last();
                let kept = (last.length - length_offset) as usize;
                let lines = o.lines.update(
                    o.lines.len() - 1,
                    LineIndex { start: last.start, length: kept },
                ).push(
                    LineIndex {
                        start: (last.start + kept + start_offset) as usize,
                        length: length_offset,
                    },
                );
                final(self)@ == (ScreenModel { lines, ..o }).scroll_after_push()
            }),
    {
        proof {
            lemma_lines_wf_last(self@.lines, self@.buffer, self@.width);
        }
        let n = self.line_indexes.len();
        let last = self.line_indexes[n - 1];
        let new_length = last.length - length_offset;
        let new_start = last.start + new_length + start_offset;
        self.line_indexes.set(n - 1, LineIndex { start: last.start, length: new_length });
        self.line_indexes.push(LineIndex { start: new_start, length: length_offset });
        if scroll {
            let h = self.lower_window.height();
            let n2 = self.line_indexes.len();
            if self.lower_window.top_index != self.upper_window.bottom_index {
                // The lower region rises from the bottom of the screen until it
                // meets the upper region.
                if n2 >= h {
                    self.lower_window.top_index = self.lower_window.top_index - 1;
                }
            } else if n2 > h {
                self.scroll_window_top = self.scroll_window_top + 1;
            }
        }
    }

    fn extend_last_line(&mut self)
        requires
            old(self)@.lines.len() >= 1,
            old(self)@.lines.last().length < usize::MAX,
        ensures
            final(self)@ == (ScreenModel {
                lines: old(self)@.lines.update(
                    old(self)@.lines.len() - 1,
                    LineIndex {
                        start: old(self)@.lines.last().start,
                        length: (old(self)@.lines.last().length + 1) as usize,
                    },
                ),
                ..old(self)@
            }),
            final(self).grid == old(self).grid,
            final(self).status_window == old(self).status_window,
            final(self).upper_window == old(self).upper_window,
            final(self).lower_window == old(self).lower_window,
            final(self).scroll_buffer_length == old(self).scroll_buffer_length,
            final(self).scroll_buffer@ == old(self).scroll_buffer@,
    {
        let k = self.line_indexes.len() - 1;
        let l = self.line_indexes[k];
        self.line_indexes.set(k, LineIndex { start: l.start, length: l.length + 1 });
    }

    /// Wrap `c` onto the line index: the text itself is extended by the
    /// caller.
    #[verifier::rlimit(60)]
    fn update_line_indexes_for_char(&mut self, c: char)
        requires
            old(self).wf(),
            old(self)@.buffer.len() < MAX_TEXT,
        ensures
            final(self)@ == old(self)@.line_step(c),
            final(self).grid == old(self).grid,
            final(self).status_window == old(self).status_window,
            final(self).upper_window == old(self).upper_window,
            final(self).lower_window.bottom_index == old(self).lower_window.bottom_index,
            final(self).scroll_buffer_length == old(self).scroll_buffer_length,
            final(self).scroll_buffer@ == old(self).scroll_buffer@,
    {
        let ghost o = self@;
        proof {
            lemma_lines_wf_last(o.lines, o.buffer, o.width);
        }
        let n = self.line_indexes.len();
        let last = self.line_indexes[n - 1];
        let mut length_offset: usize = 0;
        let mut start_offset: usize = 0;
        let mut push_line = false;
        if c == '\n' {
            // Skip the newline itself
            start_offset = 1;
            push_line = true;
        } else if last.length >= self.grid.width() {
            if self.wrap_style == WrapStyle::WrapOnPunctuation && c != ' ' {
                length_offset = self.carried_count();
                proof {
                    lemma_last_break_range(line_text(o.buffer, last));
                }
            }
            push_line = true;
        }
        let ghost m1 = self@;
        if push_line {
            let scroll = self.state == ScreenState::Output || self.state
                == ScreenState::WaitingForLine;
            self.push_line(scroll, length_offset, start_offset);
            proof {
                m1 = self@;
            }
            self.switch_to_more_state_if_needed();
        }
        let ghost m2 = self@;
        if c != '\n' {
            self.extend_last_line();
        }
        proof {
            lemma_line_step_parts(o, c, length_offset, push_line, m1, m2, self@);
        }
    }
}

/// The status row is exactly as wide as the screen (from 16 columns up); a
/// left text wider than its field is cut and ends with the fixed ellipsis,
/// one that fits is padded with spaces; a right text narrower than its field
/// stands at the right end, after spaces, and one wider keeps its last
/// characters.
pub proof fn lemma_status_truncation(left: Seq<char>, right: Seq<char>, width: nat)
    requires
        width >= MAX_RIGHT_STATUS_WIDTH + 5,
    ensures
        ({
            let line = status_line(left, right, width);
            let le = left_edge(width);
            &&& line.len() == width
            &&& left.len() > le ==> line.subrange(0, le as int) == left.take(le - 4) + ellipsis()
            &&& left.len() <= le ==> {
                &&& line.subrange(0, left.len() as int) == left
                &&& forall|i: int| left.len() <= i < le ==> line[i] == ' '
            }
            &&& right.len() < MAX_RIGHT_STATUS_WIDTH + 1 ==> {
                &&& line.subrange(width - right.len(), width as int) == right
                &&& forall|i: int| le <= i < width - right.len() ==> line[i] == ' '
            }
            &&& right.len() >= MAX_RIGHT_STATUS_WIDTH + 1 ==> line.subrange(le as int, width as int)
                == right.skip(right.len() - MAX_RIGHT_STATUS_WIDTH - 1)
        }),
{
    let line = status_line(left, right, width);
    let le = left_edge(width);
    if left.len() > le {
        assert(line.subrange(0, le as int) =~= left.take(le - 4) + ellipsis());
    } else {
        assert(line.subrange(0, left.len() as int) =~= left);
    }
    if right.len() < MAX_RIGHT_STATUS_WIDTH + 1 {
        assert(line.subrange(width - right.len(), width as int) =~= right);
    } else {
        assert(line.subrange(le as int, width as int) =~= right.skip(
            right.len() - MAX_RIGHT_STATUS_WIDTH - 1,
        ));
    }
}

/// A backspace never reaches before where input began: while a line is
/// taken, a backspace takes back at most the last character of the text,
/// and only together with a typed character of the line; with nothing typed
/// since input began it changes nothing but the scroll position.
pub proof fn lemma_backspace_boundary(m: ScreenModel, g: GridModel)
    requires
        m.wf(),
        m.state == ScreenState::WaitingForLine,
    ensures
        ({
            let (r, _, done) = m.line_input_pair(g, BACKSPACE);
            &&& !done
            &&& r.buffer == m.buffer || r.buffer == m.buffer.drop_last()
            &&& r.buffer != m.buffer ==> r.last_input == m.last_input.drop_last() && m.last_input.len()
                > 0
            &&& (m.last_input.len() == 0 || m.cursor_location().absolute()
                <= m.input_start.absolute()) ==> r == (ScreenModel {
                scroll_top: m.bottom_scroll(),
                ..m
            })
        }),
{
    let m1 = ScreenModel { scroll_top: m.bottom_scroll(), ..m };
    let m2 = ScreenModel { last_input: m1.last_input.drop_last(), ..m1 };
    assert(m2.erase_n(1) == m2.erase_n(0).erase_one());
}
/// Paging pauses output: with paging on and output shown, a character that
/// starts a new line once more lines have come since input was last asked
/// for than the lower region holds (after it has risen or scrolled for the
/// new line) leaves the screen waiting for a page advance; the character is
/// still added to the text.
pub proof fn lemma_more_pauses(m: ScreenModel, c: char)
    requires
        m.wf(),
        m.use_more,
        m.state == ScreenState::Output,
        c == '\n' || m.lines.last().length >= m.width,
        ({
            let p = (ScreenModel {
                lines: wrap_step(m.lines, m.buffer, c, m.width, m.wrap_style),
                ..m
            }).scroll_after_push();
            p.lines.len() > m.input_start.line_start + p.lower_height()
        }),
    ensures
        m.char_step(c).state == ScreenState::WaitingForMore,
        m.char_step(c).buffer == m.buffer.push(c),
{
}

/// A page advance moves on by one page, the height of the lower region, up
/// to the end of the text; it leaves paging (for output, or for the line
/// still owed) exactly when the end of the text shows. The text, its line
/// index and the regions stay as they were.
pub proof fn lemma_page_advance(m: ScreenModel, g: GridModel)
    requires
        m.wf(),
        m.paging(),
    ensures
        ({
            let r = m.page_pair(g).0;
            &&& r.scroll_top == min_nat(m.scroll_top + m.lower_height(), m.bottom_scroll())
            &&& r.scroll_top == m.bottom_scroll() ==> r.state == if m.state
                == ScreenState::WaitingForMore {
                ScreenState::Output
            } else {
                ScreenState::WaitingForLine
            }
            &&& r.scroll_top != m.bottom_scroll() ==> r.state == m.state
            &&& r.buffer == m.buffer
            &&& r.lines == m.lines
            &&& r.lower_top == m.lower_top
            &&& r.upper_bottom == m.upper_bottom
            &&& !m.input_pair(g, ' ').2
            &&& m.input_pair(g, ' ').0 == r
        }),
{
}
} // verus!
