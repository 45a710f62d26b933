//! The terminal's state at power-up: the page and page memory, cursor,
//! character sets, modes, margins, tab stops, status line, user-defined
//! keys, soft fonts, colours, key programs and Set-Up features, as the
//! configuration sets them.

use vstd::prelude::*;
use crate::cell::{Attrs, Cell, Color, Flags, blank_cell};
use crate::charset::{Charset, CharsetState};
use crate::color::{ColorMode, ColorTable, alternate_entry, atc_order, default_map_entry};
use crate::config::{Config, Model, StatusDisplay, Supplemental, max_level};
use crate::grid::{Grid, Line, LineSize, Region, deleted, filled, fresh_line, inserted, line_view, scrolled_down, scrolled_up};
use crate::selection::{columns, least};
use crate::keyprog::{KeyPrograms, no_programs};
use crate::modes::{Modes, power_up_modes};
use crate::setup::{Features, default_tabs, default_tabs_spec, factory_view};
use crate::softfont::{BufferView, SoftFonts};
use crate::udk::{UserKeys, no_keys};

verus! {

/// The cursor: its position, the rendition it writes with, and DEC's "last
/// column flag": a character was written in the last column and the next
/// graphic character wraps first (if DECAWM is set).
#[derive(Debug, Clone, Copy, PartialEq, Eq, Structural)]
pub struct Cursor {
    pub row: usize,
    pub col: usize,
    pub attrs: Attrs,
    pub pending_wrap: bool,
}

/// What DECSC saves and DECRC restores: the position, rendition,
/// character sets, origin mode and the wrap flag.
#[derive(Debug, Clone, Copy)]
pub struct SavedCursor {
    pub row: usize,
    pub col: usize,
    pub attrs: Attrs,
    pub charsets: CharsetState,
    pub origin: bool,
    pub autowrap: bool,
}

/// The character sets at power-up and after DECRC with nothing saved:
/// the VT220 sets with the user-preferred supplemental set from the VT220
/// on, ASCII in all four before.
pub open spec fn initial_charsets_spec(model: Model, upss: Charset) -> CharsetState {
    if max_level(model) >= 2 {
        CharsetState { g: [Charset::Ascii, Charset::Ascii, upss, upss], gl: 0, gr: 2, single_shift: None }
    } else {
        CharsetState { g: [Charset::Ascii, Charset::Ascii, Charset::Ascii, Charset::Ascii], gl: 0, gr: 2, single_shift: None }
    }
}

/// The initial character sets of a model.
pub fn initial_charsets(model: Model, upss: Charset) -> (r: CharsetState)
    ensures
        r == initial_charsets_spec(model, upss),
{
    if model.max_level() >= 2 {
        CharsetState { g: [Charset::Ascii, Charset::Ascii, upss, upss], gl: 0, gr: 2, single_shift: None }
    } else {
        CharsetState { g: [Charset::Ascii, Charset::Ascii, Charset::Ascii, Charset::Ascii], gl: 0, gr: 2, single_shift: None }
    }
}

/// The status line: which kind is shown, whether host output goes to it,
/// where the main display's cursor was meanwhile, and its own column.
#[derive(Debug, Clone, Copy)]
pub struct StatusLine {
    pub kind: StatusDisplay,
    pub active: bool,
    pub main_cursor: (usize, usize, bool),
    pub col: usize,
}

/// Pages available for a page length with one session: EK-VT420-RM table
/// 6-1; for the VT500s, EK-VT520-RM DECSLPP (the list of 3 pages of 24
/// lines is followed where the manual also says 6).
pub open spec fn pages_for(model: Model, lines: int) -> int {
    if max_level(model) >= 5 {
        if lines <= 24 {
            3
        } else if lines <= 36 {
            2
        } else {
            1
        }
    } else if lines <= 24 {
        6
    } else if lines == 25 {
        5
    } else if lines <= 36 {
        4
    } else if lines <= 48 {
        3
    } else if lines <= 72 {
        2
    } else {
        1
    }
}

/// The number of pages for a page length.
pub fn pages_for_length(model: Model, lines: usize) -> (r: usize)
    ensures
        r == pages_for(model, lines as int),
{
    if model.max_level() >= 5 {
        if lines <= 24 {
            3
        } else if lines <= 36 {
            2
        } else {
            1
        }
    } else if lines <= 24 {
        6
    } else if lines == 25 {
        5
    } else if lines <= 36 {
        4
    } else if lines <= 48 {
        3
    } else if lines <= 72 {
        2
    } else {
        1
    }
}

/// Pages at power-up: page memory from the VT420 on, one page before it.
pub open spec fn power_up_pages(model: Model, rows: int) -> int {
    if max_level(model) >= 4 {
        pages_for(model, rows)
    } else {
        1
    }
}

/// Lines of the page a configuration powers up with: at least one.
pub open spec fn power_up_rows(c: Config) -> int {
    if c.rows >= 1 {
        c.rows as int
    } else {
        1
    }
}

/// Columns of the page a configuration powers up with: at least two.
pub open spec fn power_up_cols(c: Config) -> int {
    if c.cols >= 2 {
        c.cols as int
    } else {
        2
    }
}

/// The terminal's state at power-up.
pub struct EmulatorState {
    pub config: Config,
    /// The page the cursor is on. Other pages live in `pages`.
    pub grid: Grid,
    /// Page memory; the slot for `page` is an empty placeholder while that
    /// page is in `grid`.
    pub pages: Vec<Grid>,
    pub page: usize,
    /// The page shown in the user window.
    pub display_page: usize,
    /// First page line shown in the user window.
    pub window_top: usize,
    /// Lines the screen displays (DECSNLS).
    pub screen_lines: usize,
    pub scrollback: Vec<Line>,
    pub cursor: Cursor,
    /// What DECSC saved, if anything.
    pub saved: Option<SavedCursor>,
    pub charsets: CharsetState,
    /// The user-preferred supplemental set (DECAUPSS).
    pub upss: Charset,
    pub modes: Modes,
    /// Scrolling margins, zero-based inclusive.
    pub top: usize,
    pub bottom: usize,
    pub left: usize,
    pub right: usize,
    /// DECSACE: DECCARA/DECRARA affect the whole rectangle (true) or a stream.
    pub sace_rectangle: bool,
    pub tabs: Vec<bool>,
    pub level: u8,
    pub c1_8bit: bool,
    pub vt52_graphics: bool,
    pub leds: u8,
    pub status: StatusLine,
    pub status_line: Line,
    pub udk: UserKeys,
    pub soft: SoftFonts,
    /// DECDMAC definitions, indexed by macro ID (0–63).
    pub macros: Vec<Vec<u8>>,
    /// VT525 colour map and colour assignments.
    pub colors: ColorTable,
    /// Sessions open in the terminal window.
    pub sessions: u8,
    /// VT520 programmed keys.
    pub keyprog: KeyPrograms,
    /// Set-Up features with no other home in the terminal.
    pub stored: Features,
    /// Text written to the page, for a session log, while one is kept.
    pub capture: Option<Vec<char>>,
}

/// The power-up state of a configuration: a blank page of the configured
/// size (at least one line of two columns) with the cursor home and plain
/// rendition; page memory for the model; the VT220 character sets with
/// the supplemental set of Set-Up from the VT220 on, ASCII before; the
/// power-up modes with Set-Up's autowrap, new line and (from the VT220 on)
/// national mode, and the model's scrolling; full-page margins; a tab stop
/// every eight columns; the status line the model has; no user-defined
/// keys (locked as Set-Up says), soft fonts, macros or key programs; the
/// factory colours and the model's factory Set-Up features.
pub fn power_up(config: Config) -> (r: EmulatorState)
    ensures
        ({
            let rows = power_up_rows(config);
            let cols = power_up_cols(config);
            let model = config.model;
            let level = max_level(model);
            &&& r.config == config
            &&& r.grid.view() == Seq::new(rows as nat, |k: int| fresh_line(cols as nat, blank_cell()))
            &&& r.grid.width() == cols
            &&& r.pages@.len() == power_up_pages(model, rows)
            &&& r.pages@[0].view().len() == 0
            &&& forall|i: int|
                1 <= i < r.pages@.len() ==> (#[trigger] r.pages@[i]).view() == Seq::new(
                    rows as nat,
                    |k: int| fresh_line(cols as nat, blank_cell()),
                ) && r.pages@[i].width() == cols
            &&& r.page == 0 && r.display_page == 0 && r.window_top == 0
            &&& r.screen_lines == rows
            &&& r.scrollback@.len() == 0
            &&& r.cursor == (Cursor { row: 0, col: 0, attrs: Attrs { flags: Flags(0), fg: Color::Default, bg: Color::Default }, pending_wrap: false })
            &&& r.upss == (match config.supplemental {
                Supplemental::DecSupplemental => Charset::DecSupplemental,
                Supplemental::IsoLatin1 => Charset::IsoLatin1,
            })
            &&& r.charsets.g@ == (if level >= 2 {
                seq![Charset::Ascii, Charset::Ascii, r.upss, r.upss]
            } else {
                seq![Charset::Ascii, Charset::Ascii, Charset::Ascii, Charset::Ascii]
            })
            &&& r.charsets.gl == 0 && r.charsets.gr == 2 && r.charsets.single_shift is None
            &&& r.modes == (Modes {
                smooth_scroll: model == Model::Vt420 || model == Model::Vt510,
                ..power_up_modes(config.autowrap, config.new_line, config.national_mode && level >= 2)
            })
            &&& r.top == 0 && r.bottom == rows - 1 && r.left == 0 && r.right == cols - 1
            &&& !r.sace_rectangle
            &&& r.tabs@ == default_tabs_spec(cols as nat)
            &&& r.level == level
            &&& !r.c1_8bit && !r.vt52_graphics && r.leds == 0
            &&& r.status == (StatusLine {
                kind: if level >= 3 {
                    config.status_display
                } else {
                    StatusDisplay::NoDisplay
                },
                active: false,
                main_cursor: (0, 0, false),
                col: 0,
            })
            &&& r.status_line.view() == filled(cols as nat, blank_cell())
            &&& r.status_line.size == LineSize::Single && !r.status_line.wrapped
            &&& r.udk.wf() && r.udk.view() == no_keys() && r.udk.is_locked() == config.udk_locked
            &&& r.soft.wf() && r.soft.view() == seq![None::<BufferView>, None]
            &&& r.macros@.len() == 64
            &&& forall|i: int| 0 <= i < 64 ==> (#[trigger] r.macros@[i])@.len() == 0
            &&& forall|i: int| 0 <= i < 16 ==> (#[trigger] r.colors.map@[i])@ == default_map_entry(i)
            &&& r.colors.normal == (7u8, 0u8) && r.colors.frame == (7u8, 0u8)
            &&& forall|i: int| 0 <= i < 16 ==> #[trigger] r.colors.alternate@[i] == alternate_entry(atc_order()[i])
            &&& r.colors.mode == ColorMode::Sgr
            &&& r.sessions == 1
            &&& r.keyprog.wf() && r.keyprog.view() == no_programs() && !r.keyprog.is_locked()
            &&& r.stored@ == factory_view(model)
            &&& r.capture is None
            &&& r.saved is None
            &&& r.charsets == initial_charsets_spec(model, r.upss)
            &&& r.motion_ok()
            &&& r.page_shape()
        }),
{
    let rows = if config.rows >= 1 {
        config.rows
    } else {
        1
    };
    let cols = if config.cols >= 2 {
        config.cols
    } else {
        2
    };
    let model = config.model;
    let level = model.max_level();
    let upss = config.supplemental.charset();
    let status_kind = if model.has_status_line() {
        config.status_display
    } else {
        StatusDisplay::NoDisplay
    };
    let page_count = if level >= 4 {
        pages_for_length(model, rows)
    } else {
        1
    };
    let mut pages: Vec<Grid> = Vec::new();
    pages.push(Grid::new(0, 0));
    while pages.len() < page_count
        invariant
            1 <= pages@.len() <= page_count,
            page_count == power_up_pages(model, rows as int),
            pages@[0].view().len() == 0,
            forall|i: int|
                1 <= i < pages@.len() ==> (#[trigger] pages@[i]).view() == Seq::new(
                    rows as nat,
                    |k: int| fresh_line(cols as nat, blank_cell()),
                ) && pages@[i].width() == cols,
        decreases page_count - pages@.len(),
    {
        pages.push(Grid::new(rows, cols));
    }
    let charsets = initial_charsets(model, upss);
    let modes = Modes {
        smooth_scroll: model.smooth_scroll_default(),
        ..Modes::power_up(config.autowrap, config.new_line, config.national_mode && level >= 2)
    };
    let mut macros: Vec<Vec<u8>> = Vec::new();
    while macros.len() < 64
        invariant
            macros@.len() <= 64,
            forall|i: int| 0 <= i < macros@.len() ==> (#[trigger] macros@[i])@.len() == 0,
        decreases 64 - macros@.len(),
    {
        macros.push(Vec::new());
    }
    let udk_locked = config.udk_locked;
    let r = EmulatorState {
        grid: Grid::new(rows, cols),
        pages,
        page: 0,
        display_page: 0,
        window_top: 0,
        screen_lines: rows,
        scrollback: Vec::new(),
        cursor: Cursor { row: 0, col: 0, attrs: Attrs::plain(), pending_wrap: false },
        saved: None,
        charsets,
        upss,
        modes,
        top: 0,
        bottom: rows - 1,
        left: 0,
        right: cols - 1,
        sace_rectangle: false,
        tabs: default_tabs(cols),
        level,
        c1_8bit: false,
        vt52_graphics: false,
        leds: 0,
        status: StatusLine { kind: status_kind, active: false, main_cursor: (0, 0, false), col: 0 },
        status_line: Line::new(cols, Cell::blank()),
        udk: UserKeys::new(udk_locked),
        soft: SoftFonts::new(),
        macros,
        colors: ColorTable::default(),
        sessions: 1,
        keyprog: KeyPrograms::new(),
        stored: Features::factory(model),
        capture: None,
        config,
    };
    assert(r.tabs@.len() == cols);
    assert(forall|k: int| 0 <= k < rows ==> #[trigger] r.grid.view()[k] == fresh_line(cols as nat, blank_cell()));
    r
}


/// The session log after a line break: a line end is added unless the log
/// is empty or already ends one.
pub open spec fn log_line_break(capture: Option<Vec<char>>) -> Option<Seq<char>> {
    match capture {
        Some(t) => if t@.len() > 0 && t@.last() != '\n' {
            Some(t@.push('\n'))
        } else {
            Some(t@)
        },
        None => None,
    }
}

/// The first tab stop from column `c` up to, not including, `last`;
/// `last` when there is none.
pub open spec fn tab_search(tabs: Seq<bool>, c: int, last: int) -> int
    decreases last - c,
{
    if c >= last {
        last
    } else if tabs[c] {
        c
    } else {
        tab_search(tabs, c + 1, last)
    }
}

/// The column `n` tab stops on from `col`, stopping at `last`.
pub open spec fn tabs_forward(tabs: Seq<bool>, col: int, last: int, n: nat) -> int
    decreases n,
{
    if n == 0 {
        col
    } else {
        tabs_forward(tabs, tab_search(tabs, col + 1, last), last, (n - 1) as nat)
    }
}

/// The last tab stop before column `c`, not counting column 0; 0 when
/// there is none.
pub open spec fn back_search(tabs: Seq<bool>, c: int) -> int
    decreases c,
{
    if c <= 1 {
        0
    } else if tabs[c - 1] {
        c - 1
    } else {
        back_search(tabs, c - 1)
    }
}

/// The column `n` tab stops back from `col`.
pub open spec fn tabs_back(tabs: Seq<bool>, col: int, n: nat) -> int
    decreases n,
{
    if n == 0 {
        col
    } else {
        tabs_back(tabs, back_search(tabs, col), (n - 1) as nat)
    }
}

impl EmulatorState {
    /// Addressable columns of page line `row`.
    pub open spec fn width_of(&self, row: int) -> int {
        columns(self.grid.view()[row])
    }

    /// Addressable columns of the line the cursor is on: the status line
    /// while it is active.
    pub open spec fn cursor_width(&self) -> int {
        if self.status.active {
            columns(line_view(self.status_line))
        } else {
            self.width_of(self.cursor.row as int)
        }
    }

    /// The state cursor motion works in: a page of at least one line, each
    /// line and the status line at least one column wide and no wider than
    /// the tab stops, the cursor on the page within its line, and margins in
    /// order.
    pub open spec fn motion_ok(&self) -> bool {
        &&& self.grid.view().len() >= 1
        &&& forall|r: int| 0 <= r < self.grid.view().len() ==> 1 <= columns(#[trigger] self.grid.view()[r]) <= self.tabs@.len()
        &&& 1 <= columns(line_view(self.status_line)) <= self.tabs@.len()
        &&& self.cursor.row < self.grid.view().len()
        &&& self.cursor.col < self.cursor_width()
        &&& self.top <= self.bottom
        &&& self.left <= self.right
    }

    /// The cursor after moving to `row` and `col`, held to the page and
    /// the line; on the status line only the column applies.
    pub open spec fn moved(&self, row: int, col: int) -> Cursor {
        if self.status.active {
            Cursor { col: least(col, columns(line_view(self.status_line)) - 1) as usize, pending_wrap: false, ..self.cursor }
        } else {
            let r = least(row, self.grid.view().len() - 1);
            Cursor { row: r as usize, col: least(col, self.width_of(r) - 1) as usize, pending_wrap: false, ..self.cursor }
        }
    }

    /// Whether moving the cursor is done: it moved to `to`, the log ended its
    /// line if the row changed, and nothing else changed.
    pub open spec fn moved_to(&self, next: EmulatorState, to: Cursor) -> bool {
        &&& next == EmulatorState { cursor: to, capture: next.capture, ..*self }
        &&& capture_view(next.capture) == if to.row != self.cursor.row {
            log_line_break(self.capture)
        } else {
            capture_view(self.capture)
        }
    }
}

/// The text of a session log, if one is kept.
pub open spec fn capture_view(c: Option<Vec<char>>) -> Option<Seq<char>> {
    match c {
        Some(t) => Some(t@),
        None => None,
    }
}

/// A session log with its last line ended, unless it is empty or the line
/// is already ended.
fn log_with_line_break(cap: Option<Vec<char>>) -> (r: Option<Vec<char>>)
    ensures
        capture_view(r) == log_line_break(cap),
{
    match cap {
        Some(mut t) => {
            if t.len() > 0 && t[t.len() - 1] != '\n' {
                t.push('\n');
            }
            Some(t)
        },
        None => None,
    }
}

impl EmulatorState {
    /// The rightmost column the cursor can move to from where it is: the
    /// right margin when inside the margins, otherwise the line end.
    pub open spec fn right_limit_spec(&self) -> int {
        let last = self.cursor_width() - 1;
        if !self.status.active && self.left <= self.cursor.col <= self.right {
            least(self.right as int, last)
        } else {
            last
        }
    }

    /// Moves the cursor to an absolute position, held to the page and the
    /// line width; on the status line only the column applies.
    #[verifier::spinoff_prover]
    #[verifier::rlimit(60)]
    pub fn goto(&mut self, row: usize, col: usize)
        requires
            old(self).motion_ok(),
        ensures
            old(self).moved_to(*final(self), old(self).moved(row as int, col as int)),
            final(self).motion_ok(),
    {
        if self.status.active {
            let w = self.status_line.width();
            let c = if col < w - 1 {
                col
            } else {
                w - 1
            };
            self.cursor = Cursor { col: c, pending_wrap: false, ..self.cursor };
            assert(self.grid == old(self).grid && self.tabs == old(self).tabs && self.status_line == old(self).status_line);
            return;
        }
        let rows = self.grid.rows();
        let r = if row < rows - 1 {
            row
        } else {
            rows - 1
        };
        if r != self.cursor.row {
            let cap = self.capture.take();
            self.capture = log_with_line_break(cap);
        }
        let w = self.grid.line(r).width();
        let c = if col < w - 1 {
            col
        } else {
            w - 1
        };
        self.cursor = Cursor { row: r, col: c, pending_wrap: false, attrs: self.cursor.attrs };
        assert(self.grid == old(self).grid && self.tabs == old(self).tabs && self.status_line == old(self).status_line);
        assert(self.width_of(r as int) == w);
    }

    /// DECSC: saves the cursor position, rendition, character sets, origin
    /// mode and wrap flag.
    pub fn save_cursor(&mut self)
        ensures
            *final(self) == (EmulatorState {
                saved: Some(
                    SavedCursor {
                        row: old(self).cursor.row,
                        col: old(self).cursor.col,
                        attrs: old(self).cursor.attrs,
                        charsets: old(self).charsets,
                        origin: old(self).modes.origin,
                        autowrap: old(self).modes.autowrap,
                    },
                ),
                ..*old(self)
            }),
    {
        self.saved = Some(
            SavedCursor {
                row: self.cursor.row,
                col: self.cursor.col,
                attrs: self.cursor.attrs,
                charsets: self.charsets,
                origin: self.modes.origin,
                autowrap: self.modes.autowrap,
            },
        );
    }

    /// The state DECRC restores before moving the cursor: what was saved,
    /// or with nothing saved origin mode off, plain rendition and the
    /// initial character sets.
    pub open spec fn restoring(&self) -> EmulatorState {
        match self.saved {
            Some(sv) => EmulatorState {
                modes: Modes { origin: sv.origin, autowrap: sv.autowrap, ..self.modes },
                cursor: Cursor { attrs: sv.attrs, ..self.cursor },
                charsets: sv.charsets,
                ..*self
            },
            None => EmulatorState {
                modes: Modes { origin: false, ..self.modes },
                cursor: Cursor { attrs: Attrs { flags: Flags(0), fg: Color::Default, bg: Color::Default }, ..self.cursor },
                charsets: initial_charsets_spec(self.config.model, self.upss),
                ..*self
            },
        }
    }

    /// Restores what DECSC saved, or the defaults, without moving.
    #[verifier::spinoff_prover]
    fn restore_saved(&mut self)
        ensures
            *final(self) == old(self).restoring(),
    {
        let (origin, autowrap, attrs, charsets) = match self.saved {
            Some(saved) => (saved.origin, saved.autowrap, saved.attrs, saved.charsets),
            None => (false, self.modes.autowrap, Attrs::plain(), initial_charsets(self.config.model, self.upss)),
        };
        self.modes = Modes { origin, autowrap, ..self.modes };
        self.cursor = Cursor { attrs, ..self.cursor };
        self.charsets = charsets;
    }

    /// DECRC: restores what DECSC saved and moves the cursor back, or homes
    /// the cursor with plain rendition and the initial sets when nothing
    /// was saved.
    pub fn restore_cursor(&mut self)
        requires
            old(self).motion_ok(),
        ensures
            ({
                let mid = old(self).restoring();
                let (r, c) = match old(self).saved {
                    Some(sv) => (sv.row as int, sv.col as int),
                    None => (0, 0),
                };
                mid.moved_to(*final(self), mid.moved(r, c))
            }),
            final(self).motion_ok(),
    {
        let (r, c) = match self.saved {
            Some(saved) => (saved.row, saved.col),
            None => (0, 0),
        };
        self.restore_saved();
        self.goto(r, c);
    }

    /// Resets all four margins to the page borders.
    pub fn reset_margins(&mut self)
        requires
            old(self).grid.view().len() >= 1,
            old(self).grid.width() >= 1,
        ensures
            *final(self) == (EmulatorState {
                top: 0,
                bottom: (old(self).grid.view().len() - 1) as usize,
                left: 0,
                right: (old(self).grid.width() - 1) as usize,
                ..*old(self)
            }),
    {
        self.top = 0;
        self.bottom = self.grid.rows() - 1;
        self.left = 0;
        self.right = self.grid.cols() - 1;
    }

    /// CUP/HVP with one-based coordinates, relative to the margins in
    /// origin mode.
    pub fn cup(&mut self, row: usize, col: usize)
        requires
            old(self).motion_ok(),
        ensures
            ({
                let o = *old(self);
                let r0 = if row >= 1 { row - 1 } else { 0 };
                let c0 = if col >= 1 { col - 1 } else { 0 };
                let (r, c) = if o.modes.origin {
                    (least(o.top + r0, o.bottom as int), least(o.left + c0, o.right as int))
                } else {
                    (r0 as int, c0 as int)
                };
                o.moved_to(*final(self), o.moved(r, c))
            }),
            final(self).motion_ok(),
    {
        let r0 = if row >= 1 {
            row - 1
        } else {
            0
        };
        let c0 = if col >= 1 {
            col - 1
        } else {
            0
        };
        if self.modes.origin {
            let r = if r0 >= self.bottom - self.top {
                self.bottom
            } else {
                self.top + r0
            };
            let c = if c0 >= self.right - self.left {
                self.right
            } else {
                self.left + c0
            };
            self.goto(r, c);
        } else {
            self.goto(r0, c0);
        }
    }

    /// CUU: up `n` lines, stopping at the top margin when below it.
    pub fn cuu(&mut self, n: usize)
        requires
            old(self).motion_ok(),
        ensures
            ({
                let o = *old(self);
                let limit = if o.cursor.row >= o.top { o.top as int } else { 0 };
                let up = if o.cursor.row >= n { o.cursor.row - n } else { 0 };
                o.moved_to(*final(self), o.moved(if up < limit { limit } else { up }, o.cursor.col as int))
            }),
            final(self).motion_ok(),
    {
        let limit = if self.cursor.row >= self.top {
            self.top
        } else {
            0
        };
        let up = if self.cursor.row >= n {
            self.cursor.row - n
        } else {
            0
        };
        let r = if up < limit {
            limit
        } else {
            up
        };
        let c = self.cursor.col;
        self.goto(r, c);
    }

    /// CUD: down `n` lines, stopping at the bottom margin when above it.
    pub fn cud(&mut self, n: usize)
        requires
            old(self).motion_ok(),
        ensures
            ({
                let o = *old(self);
                let limit = if o.cursor.row <= o.bottom { o.bottom as int } else { o.grid.view().len() - 1 };
                o.moved_to(*final(self), o.moved(least(o.cursor.row + n, limit), o.cursor.col as int))
            }),
            final(self).motion_ok(),
    {
        let limit = if self.cursor.row <= self.bottom {
            self.bottom
        } else {
            self.grid.rows() - 1
        };
        let r = if self.cursor.row >= limit || n >= limit - self.cursor.row {
            limit
        } else {
            self.cursor.row + n
        };
        let c = self.cursor.col;
        self.goto(r, c);
    }

    /// The rightmost column the cursor can move to from where it is.
    pub fn right_limit(&self) -> (r: usize)
        requires
            self.motion_ok(),
        ensures
            r == self.right_limit_spec(),
    {
        let last = if self.status.active {
            self.status_line.width() - 1
        } else {
            self.grid.line(self.cursor.row).width() - 1
        };
        if !self.status.active && self.left <= self.cursor.col && self.cursor.col <= self.right {
            if self.right < last {
                self.right
            } else {
                last
            }
        } else {
            last
        }
    }

    /// CUF: right `n` columns, stopping at the right margin when inside
    /// the margins, else at the line end.
    pub fn cuf(&mut self, n: usize)
        requires
            old(self).motion_ok(),
        ensures
            ({
                let o = *old(self);
                o.moved_to(*final(self), o.moved(o.cursor.row as int, least(o.cursor.col + n, o.right_limit_spec())))
            }),
            final(self).motion_ok(),
    {
        let limit = self.right_limit();
        let c = if self.cursor.col >= limit || n >= limit - self.cursor.col {
            limit
        } else {
            self.cursor.col + n
        };
        let r = self.cursor.row;
        self.goto(r, c);
    }

    /// CUB: left `n` columns, stopping at the left margin when not left of
    /// it (and not on the status line).
    pub fn cub(&mut self, n: usize)
        requires
            old(self).motion_ok(),
        ensures
            ({
                let o = *old(self);
                let limit = if o.cursor.col >= o.left && !o.status.active { o.left as int } else { 0 };
                let back = if o.cursor.col >= n { o.cursor.col - n } else { 0 };
                o.moved_to(*final(self), o.moved(o.cursor.row as int, if back < limit { limit } else { back }))
            }),
            final(self).motion_ok(),
    {
        let limit = if self.cursor.col >= self.left && !self.status.active {
            self.left
        } else {
            0
        };
        let back = if self.cursor.col >= n {
            self.cursor.col - n
        } else {
            0
        };
        let c = if back < limit {
            limit
        } else {
            back
        };
        let r = self.cursor.row;
        self.goto(r, c);
    }

    /// CR: back to the left margin, or to column 1 from left of it.
    pub fn carriage_return(&mut self)
        requires
            old(self).motion_ok(),
        ensures
            ({
                let o = *old(self);
                let c = if o.cursor.col >= o.left && !o.status.active { o.left as int } else { 0 };
                o.moved_to(*final(self), o.moved(o.cursor.row as int, c))
            }),
            final(self).motion_ok(),
    {
        let c = if self.cursor.col >= self.left && !self.status.active {
            self.left
        } else {
            0
        };
        let r = self.cursor.row;
        self.goto(r, c);
    }

    /// HT/CHT: on `n` tab stops, stopping at the right margin when not
    /// right of it, else at the line end.
    pub fn tab(&mut self, n: usize)
        requires
            old(self).motion_ok(),
        ensures
            ({
                let o = *old(self);
                let end = o.cursor_width() - 1;
                let last = if o.cursor.col <= o.right && !o.status.active { least(o.right as int, end) } else { end };
                o.moved_to(*final(self), o.moved(o.cursor.row as int, tabs_forward(o.tabs@, o.cursor.col as int, last, n as nat)))
            }),
            final(self).motion_ok(),
    {
        let end = if self.status.active {
            self.status_line.width() - 1
        } else {
            self.grid.line(self.cursor.row).width() - 1
        };
        let last = if self.cursor.col <= self.right && !self.status.active {
            if self.right < end {
                self.right
            } else {
                end
            }
        } else {
            end
        };
        let ghost tabs = self.tabs@;
        let ghost col0 = self.cursor.col as int;
        let mut c = self.cursor.col;
        let mut i: usize = 0;
        while i < n
            invariant
                i <= n,
                c <= last,
                last < self.tabs@.len(),
                tabs == self.tabs@,
                tabs_forward(tabs, col0, last as int, n as nat) == tabs_forward(tabs, c as int, last as int, (n - i) as nat),
            decreases n - i,
        {
            let mut k = if c < last {
                c + 1
            } else {
                last
            };
            while k < last && !self.tabs[k]
                invariant
                    k <= last,
                    last < self.tabs@.len(),
                    tabs == self.tabs@,
                    tab_search(tabs, k as int, last as int) == tab_search(tabs, c + 1, last as int),
                decreases last - k,
            {
                k = k + 1;
            }
            c = k;
            i = i + 1;
        }
        let r = self.cursor.row;
        self.goto(r, c);
    }

    /// CBT: back `n` tab stops, to column 1 when there are no more.
    pub fn back_tab(&mut self, n: usize)
        requires
            old(self).motion_ok(),
        ensures
            ({
                let o = *old(self);
                o.moved_to(*final(self), o.moved(o.cursor.row as int, tabs_back(o.tabs@, o.cursor.col as int, n as nat)))
            }),
            final(self).motion_ok(),
    {
        let ghost tabs = self.tabs@;
        let ghost col0 = self.cursor.col as int;
        let mut c = self.cursor.col;
        let mut i: usize = 0;
        while i < n
            invariant
                i <= n,
                c < self.tabs@.len(),
                tabs == self.tabs@,
                tabs_back(tabs, col0, n as nat) == tabs_back(tabs, c as int, (n - i) as nat),
            decreases n - i,
        {
            let mut k = c;
            while k > 1 && !self.tabs[k - 1]
                invariant
                    k <= c,
                    c < self.tabs@.len(),
                    tabs == self.tabs@,
                    back_search(tabs, k as int) == back_search(tabs, c as int),
                decreases k,
            {
                k = k - 1;
            }
            c = if k <= 1 {
                0
            } else {
                k - 1
            };
            i = i + 1;
        }
        let r = self.cursor.row;
        self.goto(r, c);
    }
}

/// `cells` with columns `start` up to `end` replaced by `fill`.
pub open spec fn erased_cells(cells: Seq<Cell>, start: int, end: int, fill: Cell) -> Seq<Cell> {
    Seq::new(cells.len(), |k: int| if start <= k < end { fill } else { cells[k] })
}

impl EmulatorState {
    /// Whether `next` differs from this state only in the cells of the line
    /// the cursor is on, which `edit` gives from the old ones, and in the
    /// last-column flag, which is cleared.
    pub open spec fn edited_to(&self, next: EmulatorState, edit: spec_fn(Seq<Cell>) -> Seq<Cell>) -> bool {
        let cursor = Cursor { pending_wrap: false, ..self.cursor };
        if self.status.active {
            &&& next == EmulatorState { status_line: next.status_line, cursor, ..*self }
            &&& next.status_line.view() == edit(self.status_line.view())
            &&& next.status_line.size == self.status_line.size
            &&& next.status_line.wrapped == self.status_line.wrapped
        } else {
            let l = self.grid.view()[self.cursor.row as int];
            &&& next == EmulatorState { grid: next.grid, cursor, ..*self }
            &&& next.grid.view() == self.grid.view().update(self.cursor.row as int, (edit(l.0), l.1, l.2))
            &&& next.grid.width() == self.grid.width()
        }
    }

    /// ECH: erases `n` characters from the cursor to `fill`, the cell the
    /// terminal erases to.
    pub fn erase_chars(&mut self, n: usize, fill: Cell)
        requires
            old(self).motion_ok(),
        ensures
            ({
                let col = old(self).cursor.col as int;
                let end = least(col + n, usize::MAX as int);
                old(self).edited_to(*final(self), |cells: Seq<Cell>| erased_cells(cells, col, end, fill))
            }),
    {
        let col = self.cursor.col;
        let end = col.saturating_add(n);
        if self.status.active {
            self.status_line.erase(col..end, fill);
            assert(self.status_line.view() =~= erased_cells(old(self).status_line.view(), col as int, end as int, fill));
        } else {
            let row = self.cursor.row;
            let line = self.grid.line_mut(row);
            line.erase(col..end, fill);
            assert(line_view(*line).0 =~= erased_cells(old(self).grid.view()[row as int].0, col as int, end as int, fill));
        }
        self.cursor.pending_wrap = false;
    }

    /// ICH: inserts `n` blank characters (`fill`) at the cursor, shifting
    /// the rest of the line up to the right limit; ignored outside the
    /// left/right margins.
    pub fn insert_chars(&mut self, n: usize, fill: Cell)
        requires
            old(self).motion_ok(),
        ensures
            ({
                let o = *old(self);
                let col = o.cursor.col as int;
                let last = o.right_limit_spec();
                if !o.status.active && !(o.left <= o.cursor.col <= o.right) {
                    *final(self) == o
                } else {
                    o.edited_to(*final(self), |cells: Seq<Cell>| inserted(cells, col, last, n as int, fill))
                }
            }),
    {
        if !self.status.active && !(self.left <= self.cursor.col && self.cursor.col <= self.right) {
            return;
        }
        let col = self.cursor.col;
        let last = self.right_limit();
        if self.status.active {
            self.status_line.insert(col, last, n, fill);
        } else {
            let row = self.cursor.row;
            let line = self.grid.line_mut(row);
            line.insert(col, last, n, fill);
        }
        self.cursor.pending_wrap = false;
    }

    /// DCH: deletes `n` characters at the cursor, pulling in the rest of
    /// the line up to the right limit and filling with `fill`; ignored
    /// outside the left/right margins.
    pub fn delete_chars(&mut self, n: usize, fill: Cell)
        requires
            old(self).motion_ok(),
        ensures
            ({
                let o = *old(self);
                let col = o.cursor.col as int;
                let last = o.right_limit_spec();
                if !o.status.active && !(o.left <= o.cursor.col <= o.right) {
                    *final(self) == o
                } else {
                    o.edited_to(*final(self), |cells: Seq<Cell>| deleted(cells, col, last, n as int, fill))
                }
            }),
    {
        if !self.status.active && !(self.left <= self.cursor.col && self.cursor.col <= self.right) {
            return;
        }
        let col = self.cursor.col;
        let last = self.right_limit();
        if self.status.active {
            self.status_line.delete(col, last, n, fill);
        } else {
            let row = self.cursor.row;
            let line = self.grid.line_mut(row);
            line.delete(col, last, n, fill);
        }
        self.cursor.pending_wrap = false;
    }
}

impl EmulatorState {
    /// The cursor is inside the top/bottom and left/right margins.
    pub open spec fn within_margins(&self) -> bool {
        self.top <= self.cursor.row <= self.bottom && self.left <= self.cursor.col <= self.right
    }

    /// The page is as the terminal keeps it: every line as wide in cells as
    /// the page, and the margins on the page.
    pub open spec fn page_shape(&self) -> bool {
        &&& forall|k: int| 0 <= k < self.grid.view().len() ==> (#[trigger] self.grid.view()[k]).0.len() == self.grid.width()
        &&& self.bottom < self.grid.view().len()
        &&& self.right < self.grid.width()
    }

    /// The region that IL and DL scroll: from the cursor line to the bottom
    /// margin, between the left and right margins.
    pub open spec fn lines_region(&self) -> Region {
        Region { top: self.cursor.row, bottom: self.bottom, left: self.left, right: self.right }
    }

    /// The state after IL or DL made the page `g`: the cursor goes to the
    /// left margin of its line.
    pub open spec fn after_line_edit(&self, g: EmulatorState) -> bool {
        let w = columns(g.grid.view()[self.cursor.row as int]);
        &&& g.grid.width() == self.grid.width()
        &&& g == EmulatorState {
            grid: g.grid,
            cursor: Cursor { col: least(self.left as int, w - 1) as usize, pending_wrap: false, ..self.cursor },
            ..*self
        }
    }

    /// IL: inserts `n` lines of `fill` at the cursor line, pushing lines
    /// down within the margins; ignored outside them or on the status line.
    pub fn insert_lines(&mut self, n: usize, fill: Cell)
        requires
            old(self).motion_ok(),
            old(self).page_shape(),
        ensures
            ({
                let o = *old(self);
                if o.status.active || !o.within_margins() {
                    *final(self) == o
                } else {
                    &&& final(self).grid.view() == scrolled_down(o.grid.view(), o.grid.width(), o.lines_region(), n as int, fill)
                    &&& o.after_line_edit(*final(self))
                }
            }),
    {
        if self.status.active || !(self.top <= self.cursor.row && self.cursor.row <= self.bottom && self.left
            <= self.cursor.col && self.cursor.col <= self.right) {
            return;
        }
        let region = Region { top: self.cursor.row, bottom: self.bottom, left: self.left, right: self.right };
        let ghost before = self.grid.view();
        self.grid.scroll_down(region, n, fill);
        let row = self.cursor.row;
        proof {
            let k = row as int;
            let height = region.bottom - region.top + 1;
            let m = crate::grid::min(n as int, height);
            assert(columns(before[k]) >= 1);
            if m > 0 && region.left == 0 && region.right + 1 >= self.grid.width() && k < region.top + m {
                assert(columns(before[k + height - m]) >= 1);
            }
        }
        let w = self.grid.line(row).width();
        let c = if self.left < w - 1 {
            self.left
        } else {
            w - 1
        };
        self.cursor = Cursor { col: c, pending_wrap: false, ..self.cursor };
    }

    /// DL: deletes `n` lines at the cursor line, pulling lines up within the
    /// margins and adding lines of `fill` at the bottom margin; ignored
    /// outside the margins or on the status line.
    pub fn delete_lines(&mut self, n: usize, fill: Cell)
        requires
            old(self).motion_ok(),
            old(self).page_shape(),
        ensures
            ({
                let o = *old(self);
                if o.status.active || !o.within_margins() {
                    *final(self) == o
                } else {
                    &&& final(self).grid.view() == scrolled_up(o.grid.view(), o.grid.width(), o.lines_region(), n as int, fill)
                    &&& o.after_line_edit(*final(self))
                }
            }),
    {
        if self.status.active || !(self.top <= self.cursor.row && self.cursor.row <= self.bottom && self.left
            <= self.cursor.col && self.cursor.col <= self.right) {
            return;
        }
        let region = Region { top: self.cursor.row, bottom: self.bottom, left: self.left, right: self.right };
        let ghost before = self.grid.view();
        let _taken = self.grid.scroll_up(region, n, fill);
        let row = self.cursor.row;
        proof {
            let k = row as int;
            let height = region.bottom - region.top + 1;
            let m = crate::grid::min(n as int, height);
            assert(columns(before[k]) >= 1);
            if m > 0 && region.left == 0 && region.right + 1 >= self.grid.width() && k + m <= region.bottom {
                assert(columns(before[k + m]) >= 1);
            }
        }
        let w = self.grid.line(row).width();
        let c = if self.left < w - 1 {
            self.left
        } else {
            w - 1
        };
        self.cursor = Cursor { col: c, pending_wrap: false, ..self.cursor };
    }
}

/// DECRC after DECSC puts back what was saved: the cursor returns to where
/// it was with its rendition (only the last-column flag is cleared), and
/// the character sets, origin mode and wrap flag are as they were.
pub proof fn lemma_restore_after_save(s: EmulatorState)
    requires
        s.motion_ok(),
    ensures
        ({
            let saved = EmulatorState {
                saved: Some(
                    SavedCursor {
                        row: s.cursor.row,
                        col: s.cursor.col,
                        attrs: s.cursor.attrs,
                        charsets: s.charsets,
                        origin: s.modes.origin,
                        autowrap: s.modes.autowrap,
                    },
                ),
                ..s
            };
            let mid = saved.restoring();
            &&& mid.moved(s.cursor.row as int, s.cursor.col as int) == (Cursor { pending_wrap: false, ..s.cursor })
            &&& mid.modes == s.modes
            &&& mid.charsets == s.charsets
        }),
{
}

/// DECRC gives back what DECSC saved, whatever changed in between: with
/// `b` a later state that still holds what DECSC saved in `a`, DECRC in
/// `b` restores `a`'s origin mode, wrap flag, rendition and character sets
/// and moves the cursor to `a`'s position, held to `b`'s page; everything
/// else stays as in `b`.
pub proof fn lemma_restore_gives_back_saved(a: EmulatorState, b: EmulatorState)
    requires
        b.grid.view().len() >= 1,
        b.saved == Some(
            SavedCursor {
                row: a.cursor.row,
                col: a.cursor.col,
                attrs: a.cursor.attrs,
                charsets: a.charsets,
                origin: a.modes.origin,
                autowrap: a.modes.autowrap,
            },
        ),
    ensures
        ({
            let mid = b.restoring();
            let to = mid.moved(a.cursor.row as int, a.cursor.col as int);
            &&& mid.modes.autowrap == a.modes.autowrap
            &&& mid.modes.origin == a.modes.origin
            &&& mid.charsets == a.charsets
            &&& to.attrs == a.cursor.attrs
            &&& !to.pending_wrap
            &&& !b.status.active ==> to.row == least(a.cursor.row as int, b.grid.view().len() - 1)
            &&& mid.modes == (Modes { origin: a.modes.origin, autowrap: a.modes.autowrap, ..b.modes })
            &&& mid == (EmulatorState { modes: mid.modes, cursor: Cursor { attrs: a.cursor.attrs, ..b.cursor }, charsets: a.charsets, ..b })
        }),
{
}

/// DECRC with nothing saved turns origin mode off, keeps the wrap flag,
/// writes with plain rendition, takes the initial character sets (the
/// VT220 sets with the user-preferred supplemental set in G2 and G3 from
/// the VT220 on, ASCII in all four before, G0 in GL and G2 in GR) and homes
/// the cursor.
pub proof fn lemma_restore_with_nothing_saved(b: EmulatorState)
    requires
        b.saved is None,
        b.motion_ok(),
    ensures
        ({
            let mid = b.restoring();
            let to = mid.moved(0, 0);
            &&& !mid.modes.origin
            &&& mid.modes.autowrap == b.modes.autowrap
            &&& mid.cursor.attrs == (Attrs { flags: Flags(0), fg: Color::Default, bg: Color::Default })
            &&& mid.charsets.g@ == (if max_level(b.config.model) >= 2 {
                seq![Charset::Ascii, Charset::Ascii, b.upss, b.upss]
            } else {
                seq![Charset::Ascii, Charset::Ascii, Charset::Ascii, Charset::Ascii]
            })
            &&& mid.charsets.gl == 0 && mid.charsets.gr == 2 && mid.charsets.single_shift is None
            &&& to.col == 0
            &&& !b.status.active ==> to.row == 0
            &&& !to.pending_wrap
        }),
{
    assert(columns(b.grid.view()[0]) >= 1);
    let g = b.restoring().charsets.g;
    assert(!b.restoring().modes.origin);
    assert(b.restoring().cursor.attrs == (Attrs { flags: Flags(0), fg: Color::Default, bg: Color::Default }));
    assert(g@ =~= (if max_level(b.config.model) >= 2 {
        seq![Charset::Ascii, Charset::Ascii, b.upss, b.upss]
    } else {
        seq![Charset::Ascii, Charset::Ascii, Charset::Ascii, Charset::Ascii]
    }));
}

/// Moving the cursor goes exactly where asked when that is on the page and
/// the line, and otherwise to the nearest place that is: the last line or
/// the line's last column. It always lands on the page.
pub proof fn lemma_moved_lands_on_the_page(s: EmulatorState, row: int, col: int)
    requires
        s.motion_ok(),
        s.grid.view().len() <= usize::MAX,
        s.tabs@.len() <= usize::MAX,
        !s.status.active,
        row >= 0,
        col >= 0,
    ensures
        ({
            let to = s.moved(row, col);
            let n = s.grid.view().len();
            &&& to.row < n
            &&& to.col < columns(s.grid.view()[to.row as int])
            &&& row < n ==> to.row == row
            &&& row >= n ==> to.row == n - 1
            &&& col < columns(s.grid.view()[to.row as int]) ==> to.col == col
            &&& col >= columns(s.grid.view()[to.row as int]) ==> to.col == columns(s.grid.view()[to.row as int]) - 1
            &&& to.attrs == s.cursor.attrs
            &&& !to.pending_wrap
        }),
{
    let r = least(row, s.grid.view().len() - 1);
    assert(1 <= columns(s.grid.view()[r]) <= s.tabs@.len());
    let to = s.moved(row, col);
    assert(to.row as int == r);
    assert(to.col as int == least(col, columns(s.grid.view()[r]) - 1));
}

/// A tab goes to the next tab stop after the cursor, or to the limit when
/// none comes before it: no tab stop is passed over.
pub proof fn lemma_tab_stops_at_next_stop(tabs: Seq<bool>, col: int, last: int)
    requires
        0 <= col <= last,
        last <= tabs.len(),
    ensures
        ({
            let t = tab_search(tabs, col + 1, last);
            &&& col <= t <= last
            &&& t < last ==> col < t && tabs[t]
            &&& forall|c: int| col < c < t ==> !#[trigger] tabs[c]
        }),
    decreases last - col,
{
    if col + 1 < last && !tabs[col + 1] {
        lemma_tab_stops_at_next_stop(tabs, col + 1, last);
    }
}

/// A back tab goes to the previous tab stop before the cursor (column 0
/// not counting), or to column 0 when there is none: no tab stop is passed
/// over.
pub proof fn lemma_back_tab_stops_at_previous_stop(tabs: Seq<bool>, col: int)
    requires
        0 <= col <= tabs.len(),
    ensures
        ({
            let t = back_search(tabs, col);
            &&& 0 <= t
            &&& t < col || col == 0
            &&& t > 0 ==> tabs[t]
            &&& forall|c: int| t < c < col && c >= 1 ==> !#[trigger] tabs[c]
        }),
    decreases col,
{
    if col > 1 && !tabs[col - 1] {
        lemma_back_tab_stops_at_previous_stop(tabs, col - 1);
    }
}

} // verus!
