//! The page: lines of character cells, with the editing and scrolling
//! operations of DEC STD 070.

use vstd::prelude::*;
use crate::cell::{Cell, blank_cell};

verus! {

/// DEC line attribute (DECSWL, DECDWL, DECDHL).
#[derive(Debug, Clone, Copy, PartialEq, Eq, Hash, Structural)]
pub enum LineSize {
    Single,
    DoubleWidth,
    DoubleHeightTop,
    DoubleHeightBottom,
}

impl LineSize {
    pub fn is_double_width(self) -> (r: bool)
        ensures
            r == (self != LineSize::Single),
    {
        match self {
            LineSize::Single => false,
            _ => true,
        }
    }
}

pub struct Line {
    pub cells: Vec<Cell>,
    pub size: LineSize,
    /// The line was ended by autowrap rather than an explicit line break.
    pub wrapped: bool,
}

/// `n` copies of `fill`.
pub open spec fn filled(n: nat, fill: Cell) -> Seq<Cell> {
    Seq::new(n, |i: int| fill)
}

/// The smaller of two integers.
pub open spec fn min(a: int, b: int) -> int {
    if a < b { a } else { b }
}

/// The cells after inserting `n` copies of `fill` at `at`, shifting the
/// cells up to and including `right` (clamped to the line) rightwards;
/// cells pushed past `right` are lost.
pub open spec fn inserted(old: Seq<Cell>, at: int, right: int, n: int, fill: Cell) -> Seq<Cell> {
    let r = min(right, old.len() - 1);
    if at > r {
        old
    } else {
        let m = min(n, r - at + 1);
        Seq::new(old.len(), |k: int| if k < at || k > r {
            old[k]
        } else if k < at + m {
            fill
        } else {
            old[k - m]
        })
    }
}

/// The cells after deleting `n` cells at `at`, shifting the cells up to and
/// including `right` (clamped to the line) leftwards and filling the
/// vacated cells at `right` with `fill`.
pub open spec fn deleted(old: Seq<Cell>, at: int, right: int, n: int, fill: Cell) -> Seq<Cell> {
    let r = min(right, old.len() - 1);
    if at > r {
        old
    } else {
        let m = min(n, r - at + 1);
        Seq::new(old.len(), |k: int| if k < at || k > r {
            old[k]
        } else if k <= r - m {
            old[k + m]
        } else {
            fill
        })
    }
}

impl Line {
    pub open spec fn view(&self) -> Seq<Cell> {
        self.cells@
    }

    pub fn new(cols: usize, fill: Cell) -> (r: Line)
        ensures
            r.view() == filled(cols as nat, fill),
            r.size == LineSize::Single,
            !r.wrapped,
    {
        let mut cells: Vec<Cell> = Vec::new();
        let mut i: usize = 0;
        while i < cols
            invariant
                i <= cols,
                cells@ == filled(i as nat, fill),
            decreases cols - i,
        {
            cells.push(fill);
            i = i + 1;
            assert(cells@ =~= filled(i as nat, fill));
        }
        Line { cells, size: LineSize::Single, wrapped: false }
    }

    /// A copy of the line.
    pub fn copy(&self) -> (r: Line)
        ensures
            r.view() == self.view(),
            r.size == self.size,
            r.wrapped == self.wrapped,
    {
        let mut cells: Vec<Cell> = Vec::new();
        let mut i: usize = 0;
        while i < self.cells.len()
            invariant
                i <= self.cells@.len(),
                cells@ == self.cells@.subrange(0, i as int),
            decreases self.cells@.len() - i,
        {
            cells.push(self.cells[i]);
            i = i + 1;
            assert(cells@ =~= self.cells@.subrange(0, i as int));
        }
        assert(cells@ =~= self.cells@);
        Line { cells, size: self.size, wrapped: self.wrapped }
    }

    pub fn cells(&self) -> (r: &[Cell])
        ensures
            r@ == self.view(),
    {
        self.cells.as_slice()
    }

    pub fn cells_mut(&mut self) -> (r: &mut [Cell])
        ensures
            r@ == old(self).view(),
            final(self).view() == final(r)@,
            final(self).size == old(self).size,
            final(self).wrapped == old(self).wrapped,
    {
        self.cells.as_mut_slice()
    }

    /// The cell at column `i`.
    pub fn cell(&self, i: usize) -> (r: Cell)
        requires
            i < self.view().len(),
        ensures
            r == self.view()[i as int],
    {
        self.cells[i]
    }

    /// Replaces the cell at column `i`.
    pub fn set_cell(&mut self, i: usize, c: Cell)
        requires
            i < old(self).view().len(),
        ensures
            final(self).view() == old(self).view().update(i as int, c),
            final(self).size == old(self).size,
            final(self).wrapped == old(self).wrapped,
    {
        self.cells.set(i, c);
    }

    pub fn len(&self) -> (r: usize)
        ensures
            r == self.view().len(),
    {
        self.cells.len()
    }

    pub fn is_empty(&self) -> (r: bool)
        ensures
            r == (self.view().len() == 0),
    {
        self.cells.len() == 0
    }

    /// Number of addressable columns, halved for double-width lines.
    pub fn width(&self) -> (r: usize)
        ensures
            r == (if self.size != LineSize::Single {
                self.view().len() / 2
            } else {
                self.view().len()
            }),
    {
        if self.size.is_double_width() {
            self.cells.len() / 2
        } else {
            self.cells.len()
        }
    }

    pub fn clear(&mut self, fill: Cell)
        ensures
            final(self).view() == filled(old(self).view().len(), fill),
            final(self).size == LineSize::Single,
            !final(self).wrapped,
    {
        let n = self.cells.len();
        let mut i: usize = 0;
        while i < n
            invariant
                i <= n,
                n == self.cells@.len(),
                forall|k: int| 0 <= k < i ==> self.cells@[k] == fill,
                self.size == old(self).size,
                self.wrapped == old(self).wrapped,
            decreases n - i,
        {
            self.cells.set(i, fill);
            i = i + 1;
        }
        assert(self.cells@ =~= filled(n as nat, fill));
        self.size = LineSize::Single;
        self.wrapped = false;
    }

    /// Fills columns `cols` (clamped to the line) with `fill`.
    pub fn erase(&mut self, cols: core::ops::Range<usize>, fill: Cell)
        ensures
            final(self).view().len() == old(self).view().len(),
            forall|k: int| 0 <= k < old(self).view().len() ==> #[trigger] final(self).view()[k] == (if cols.start
                <= k < cols.end { fill } else { old(self).view()[k] }),
            final(self).size == old(self).size,
            final(self).wrapped == old(self).wrapped,
    {
        let end = if cols.end < self.cells.len() { cols.end } else { self.cells.len() };
        let start = cols.start;
        if start >= end {
            return;
        }
        let mut i: usize = start;
        while i < end
            invariant
                start <= i <= end,
                start == cols.start,
                end <= self.cells@.len(),
                self.cells@.len() == old(self).cells@.len(),
                end == (if cols.end < old(self).cells@.len() { cols.end as int } else { old(self).cells@.len() as int }),
                self.size == old(self).size,
                self.wrapped == old(self).wrapped,
                forall|k: int| 0 <= k < self.cells@.len() ==> #[trigger] self.cells@[k] == (if start <= k < i {
                    fill
                } else {
                    old(self).cells@[k]
                }),
            decreases end - i,
        {
            self.cells.set(i, fill);
            i = i + 1;
        }
    }

    /// Inserts `n` copies of `fill` at `at`, shifting cells up to and
    /// including `right` rightwards; cells pushed past `right` are lost.
    pub fn insert(&mut self, at: usize, right: usize, n: usize, fill: Cell)
        requires
            old(self).view().len() > 0,
        ensures
            final(self).view() == inserted(old(self).view(), at as int, right as int, n as int, fill),
            final(self).size == old(self).size,
            final(self).wrapped == old(self).wrapped,
    {
        let len = self.cells.len();
        let r = if right < len - 1 { right } else { len - 1 };
        if at > r {
            return;
        }
        let m = if n < r - at + 1 { n } else { r - at + 1 };
        let ghost target = inserted(old(self).view(), at as int, right as int, n as int, fill);
        let mut out: Vec<Cell> = Vec::new();
        let mut k: usize = 0;
        while k < len
            invariant
                k <= len,
                len == self.cells@.len(),
                self.cells@ == old(self).cells@,
                r == min(right as int, len - 1),
                at <= r,
                m == min(n as int, r - at + 1),
                target.len() == len,
                target == inserted(old(self).view(), at as int, right as int, n as int, fill),
                out@ == target.subrange(0, k as int),
            decreases len - k,
        {
            let c = if k < at || k > r {
                self.cells[k]
            } else if k < at + m {
                fill
            } else {
                self.cells[k - m]
            };
            assert(c == target[k as int]);
            out.push(c);
            k = k + 1;
            assert(out@ =~= target.subrange(0, k as int));
        }
        assert(out@ =~= target);
        self.cells = out;
    }

    /// Deletes `n` cells at `at`, shifting cells up to and including `right`
    /// leftwards and filling the vacated cells at `right` with `fill`.
    pub fn delete(&mut self, at: usize, right: usize, n: usize, fill: Cell)
        requires
            old(self).view().len() > 0,
        ensures
            final(self).view() == deleted(old(self).view(), at as int, right as int, n as int, fill),
            final(self).size == old(self).size,
            final(self).wrapped == old(self).wrapped,
    {
        let len = self.cells.len();
        let r = if right < len - 1 { right } else { len - 1 };
        if at > r {
            return;
        }
        let m = if n < r - at + 1 { n } else { r - at + 1 };
        let ghost target = deleted(old(self).view(), at as int, right as int, n as int, fill);
        let mut out: Vec<Cell> = Vec::new();
        let mut k: usize = 0;
        while k < len
            invariant
                k <= len,
                len == self.cells@.len(),
                self.cells@ == old(self).cells@,
                r == min(right as int, len - 1),
                at <= r,
                m == min(n as int, r - at + 1),
                target.len() == len,
                target == deleted(old(self).view(), at as int, right as int, n as int, fill),
                out@ == target.subrange(0, k as int),
            decreases len - k,
        {
            let c = if k < at || k > r {
                self.cells[k]
            } else if m <= r && k <= r - m {
                self.cells[k + m]
            } else {
                fill
            };
            assert(c == target[k as int]);
            out.push(c);
            k = k + 1;
            assert(out@ =~= target.subrange(0, k as int));
        }
        assert(out@ =~= target);
        self.cells = out;
    }

    /// Shortens the line to `cols` cells or lengthens it with `fill`.
    pub fn resize(&mut self, cols: usize, fill: Cell)
        ensures
            final(self).view() == (if cols <= old(self).view().len() {
                old(self).view().subrange(0, cols as int)
            } else {
                old(self).view() + filled((cols - old(self).view().len()) as nat, fill)
            }),
            final(self).size == old(self).size,
            final(self).wrapped == old(self).wrapped,
    {
        if cols <= self.cells.len() {
            self.cells.truncate(cols);
        } else {
            let ghost start = self.cells@;
            while self.cells.len() < cols
                invariant
                    start.len() <= self.cells@.len() <= cols,
                    self.size == old(self).size,
                    self.wrapped == old(self).wrapped,
                    self.cells@ == start + filled((self.cells@.len() - start.len()) as nat, fill),
                decreases cols - self.cells@.len(),
            {
                self.cells.push(fill);
                assert(self.cells@ =~= start + filled((self.cells@.len() - start.len()) as nat, fill));
            }
        }
    }
}

/// What a line holds: its cells, size and wrap flag.
pub open spec fn line_view(l: Line) -> (Seq<Cell>, LineSize, bool) {
    (l.cells@, l.size, l.wrapped)
}

/// Deleting at a column the cells just inserted there gives the line
/// back, but for the cells the insertion pushed past the right limit, which
/// are lost and come back as the deletion's fill; inserting keeps the
/// cells left of the column and right of the limit, and shifts the others
/// right by the cells inserted.
pub proof fn lemma_delete_undoes_insert(old: Seq<Cell>, at: int, right: int, n: int, fill: Cell, fill2: Cell)
    requires
        0 <= at,
        0 <= n,
        old.len() > 0,
    ensures
        ({
            let r = min(right, old.len() - 1);
            let m = min(n, r - at + 1);
            let ins = inserted(old, at, right, n, fill);
            let x = deleted(ins, at, right, n, fill2);
            &&& ins.len() == old.len() && x.len() == old.len()
            &&& forall|k: int| 0 <= k < old.len() && (k < at || k > r) ==> #[trigger] ins[k] == old[k]
            &&& at <= r ==> forall|k: int| at <= k < at + m ==> #[trigger] ins[k] == fill
            &&& at <= r ==> forall|k: int| at <= k && k + m <= r ==> #[trigger] ins[k + m] == old[k]
            &&& forall|k: int| 0 <= k < old.len() && (k < at || k > r || k <= r - m) ==> #[trigger] x[k] == old[k]
            &&& at <= r ==> forall|k: int| r - m < k <= r ==> #[trigger] x[k] == fill2
        }),
{
}

proof fn lemma_view_push(s: Seq<Line>, l: Line)
    ensures
        lines_view(s.push(l)) == lines_view(s).push(line_view(l)),
{
    assert(lines_view(s.push(l)) =~= lines_view(s).push(line_view(l)));
}

/// A line of `cols` cells of `fill`, single size and not wrapped.
pub open spec fn fresh_line(cols: nat, fill: Cell) -> (Seq<Cell>, LineSize, bool) {
    (filled(cols, fill), LineSize::Single, false)
}

/// The views of a sequence of lines.
pub open spec fn lines_view(lines: Seq<Line>) -> Seq<(Seq<Cell>, LineSize, bool)> {
    lines.map_values(|l: Line| line_view(l))
}

/// `cells` resized to `cols`, new cells being `fill`.
pub open spec fn resized(cells: Seq<Cell>, cols: nat, fill: Cell) -> Seq<Cell> {
    if cols <= cells.len() {
        cells.subrange(0, cols as int)
    } else {
        cells + filled((cols - cells.len()) as nat, fill)
    }
}

/// An inclusive rectangle of rows and columns.
#[derive(Debug, Clone, Copy, PartialEq, Eq, Structural)]
pub struct Region {
    pub top: usize,
    pub bottom: usize,
    pub left: usize,
    pub right: usize,
}

/// The page after scrolling `rows` up by `n`: whole lines when the region
/// spans the page width, else the region's cells only.
pub open spec fn scrolled_up(old: Seq<(Seq<Cell>, LineSize, bool)>, cols: nat, rows: Region, n: int, fill: Cell) -> Seq<(Seq<Cell>, LineSize, bool)> {
    let height = rows.bottom - rows.top + 1;
    let m = min(n, height);
    if m == 0 {
        old
    } else if rows.left == 0 && rows.right + 1 >= cols {
        Seq::new(old.len(), |k: int| if k < rows.top || k > rows.bottom {
            old[k]
        } else if k + m <= rows.bottom {
            old[k + m]
        } else {
            fresh_line(cols, fill)
        })
    } else {
        Seq::new(old.len(), |k: int| if k < rows.top || k > rows.bottom {
            old[k]
        } else {
            (Seq::new(old[k].0.len(), |j: int| if rows.left <= j <= rows.right {
                if k + m <= rows.bottom { old[k + m].0[j] } else { fill }
            } else {
                old[k].0[j]
            }), old[k].1, old[k].2)
        })
    }
}

/// The page after scrolling `rows` down by `n`. Whole lines that enter at
/// the top are the lines that left at the bottom, cleared.
pub open spec fn scrolled_down(old: Seq<(Seq<Cell>, LineSize, bool)>, cols: nat, rows: Region, n: int, fill: Cell) -> Seq<(Seq<Cell>, LineSize, bool)> {
    let height = rows.bottom - rows.top + 1;
    let m = min(n, height);
    if m == 0 {
        old
    } else if rows.left == 0 && rows.right + 1 >= cols {
        Seq::new(old.len(), |k: int| if k < rows.top || k > rows.bottom {
            old[k]
        } else if k >= rows.top + m {
            old[k - m]
        } else {
            (filled(old[k + height - m].0.len(), fill), LineSize::Single, false)
        })
    } else {
        Seq::new(old.len(), |k: int| if k < rows.top || k > rows.bottom {
            old[k]
        } else {
            (Seq::new(old[k].0.len(), |j: int| if rows.left <= j <= rows.right {
                if k >= rows.top + m { old[k - m].0[j] } else { fill }
            } else {
                old[k].0[j]
            }), old[k].1, old[k].2)
        })
    }
}

/// The visible page: a fixed number of lines.
pub struct Grid {
    lines: Vec<Line>,
    cols: usize,
}

impl Grid {
    /// The lines of the page, top first.
    pub closed spec fn view(&self) -> Seq<(Seq<Cell>, LineSize, bool)> {
        lines_view(self.lines@)
    }

    /// The page width.
    pub closed spec fn width(&self) -> nat {
        self.cols as nat
    }

    pub fn new(rows: usize, cols: usize) -> (r: Grid)
        ensures
            r.view() == Seq::new(rows as nat, |k: int| fresh_line(cols as nat, blank_cell())),
            r.width() == cols,
    {
        let mut lines: Vec<Line> = Vec::new();
        let mut i: usize = 0;
        while i < rows
            invariant
                i <= rows,
                lines_view(lines@) == Seq::new(i as nat, |k: int| fresh_line(cols as nat, blank_cell())),
            decreases rows - i,
        {
            let l = Line::new(cols, Cell::blank());
            proof {
                lemma_view_push(lines@, l);
            }
            lines.push(l);
            i = i + 1;
            assert(lines_view(lines@) =~= Seq::new(i as nat, |k: int| fresh_line(cols as nat, blank_cell())));
        }
        Grid { lines, cols }
    }

    pub fn rows(&self) -> (r: usize)
        ensures
            r == self.view().len(),
    {
        self.lines.len()
    }

    pub fn cols(&self) -> (r: usize)
        ensures
            r == self.width(),
    {
        self.cols
    }

    pub fn lines(&self) -> (r: &[Line])
        ensures
            lines_view(r@) == self.view(),
    {
        self.lines.as_slice()
    }

    pub fn line(&self, row: usize) -> (r: &Line)
        requires
            row < self.view().len(),
        ensures
            line_view(*r) == self.view()[row as int],
    {
        &self.lines[row]
    }

    /// Replaces the line at `row`.
    pub fn set_line(&mut self, row: usize, line: Line)
        requires
            row < old(self).view().len(),
        ensures
            final(self).view() == old(self).view().update(row as int, line_view(line)),
            final(self).width() == old(self).width(),
    {
        self.lines.set(row, line);
        assert(lines_view(self.lines@) =~= old(self).view().update(row as int, line_view(line)));
    }

    pub fn clear(&mut self, fill: Cell)
        ensures
            final(self).view() == Seq::new(old(self).view().len(), |k: int| (filled(old(self).view()[k].0.len(), fill), LineSize::Single, false)),
            final(self).width() == old(self).width(),
    {
        let n = self.lines.len();
        let mut out: Vec<Line> = Vec::new();
        let mut i: usize = 0;
        while i < n
            invariant
                i <= n,
                n == self.lines@.len(),
                self.lines@ == old(self).lines@,
                self.cols == old(self).cols,
                lines_view(out@) == Seq::new(i as nat, |k: int| (filled(old(self).view()[k].0.len(), fill), LineSize::Single, false)),
            decreases n - i,
        {
            let mut l = self.lines[i].copy();
            l.clear(fill);
            proof {
                lemma_view_push(out@, l);
            }
            out.push(l);
            i = i + 1;
            assert(lines_view(out@) =~= Seq::new(i as nat, |k: int| (filled(old(self).view()[k].0.len(), fill), LineSize::Single, false)));
        }
        self.lines = out;
    }
}

impl Grid {
    pub fn line_mut(&mut self, row: usize) -> (r: &mut Line)
        requires
            row < old(self).view().len(),
        ensures
            line_view(*r) == old(self).view()[row as int],
            final(self).view() == old(self).view().update(row as int, line_view(*final(r))),
            final(self).width() == old(self).width(),
    {
        let r = &mut self.lines[row];
        proof {
            assert(lines_view(after_borrow(self.lines)@) =~= old(self).view().update(row as int, line_view(*final(r))));
        }
        r
    }

    /// Scrolls rows `top..=bottom`, columns `left..=right` up by `n`.
    /// Full-width scrolls move whole lines (with their attributes) and return
    /// the lines that left the top, oldest first; partial-width scrolls move
    /// cells only and return nothing.
    pub fn scroll_up(&mut self, rows: Region, n: usize, fill: Cell) -> (taken: Vec<Line>)
        requires
            rows.top <= rows.bottom < old(self).view().len(),
            rows.left <= rows.right,
            !(rows.left == 0 && rows.right + 1 >= old(self).width()) ==> forall|k: int| rows.top <= k <= rows.bottom
                ==> rows.right < #[trigger] old(self).view()[k].0.len(),
        ensures
            final(self).view() == scrolled_up(old(self).view(), old(self).width(), rows, n as int, fill),
            final(self).width() == old(self).width(),
            lines_view(taken@) == (if rows.left == 0 && rows.right + 1 >= old(self).width() {
                old(self).view().subrange(rows.top as int, rows.top + min(n as int, rows.bottom - rows.top + 1))
            } else {
                Seq::empty()
            }),
    {
        let len = self.lines.len();
        assert(old(self).view().len() == len);
        assert(rows.bottom < len);
        let height = rows.bottom - rows.top + 1;
        let m = if n < height { n } else { height };
        if m == 0 {
            return Vec::new();
        }
        let ghost target = scrolled_up(old(self).view(), old(self).width(), rows, n as int, fill);
        let full = rows.left == 0 && (rows.right >= self.cols || self.cols - rows.right <= 1);
        let mut out: Vec<Line> = Vec::new();
        let mut k: usize = 0;
        while k < len
            invariant
                k <= len,
                len == self.lines@.len(),
                self.lines@ == old(self).lines@,
                self.cols == old(self).cols,
                full == (rows.left == 0 && rows.right + 1 >= self.cols),
                height == rows.bottom - rows.top + 1,
                rows.top <= rows.bottom < len,
                rows.left <= rows.right,
                !full ==> forall|k: int| rows.top <= k <= rows.bottom ==> rows.right < #[trigger] old(self).view()[k].0.len(),
                m == min(n as int, height as int),
                m > 0,
                target == scrolled_up(old(self).view(), old(self).width(), rows, n as int, fill),
                lines_view(out@) == target.subrange(0, k as int),
            decreases len - k,
        {
            let l = if k < rows.top || k > rows.bottom {
                self.lines[k].copy()
            } else if full {
                if m <= rows.bottom && k <= rows.bottom - m {
                    self.lines[k + m].copy()
                } else {
                    Line::new(self.cols, fill)
                }
            } else {
                let mut l = self.lines[k].copy();
                proof {
                    assert(old(self).view()[k as int].0 == self.lines@[k as int].cells@);
                    if k + m <= rows.bottom {
                        assert(old(self).view()[k + m].0 == self.lines@[k + m].cells@);
                    }
                }
                let lr = l.len();
                let mut j: usize = rows.left;
                while j <= rows.right
                    invariant
                        lr == l.cells@.len(),
                        rows.left <= j <= rows.right + 1,
                        rows.right < l.cells@.len(),
                        rows.top <= k <= rows.bottom,
                        rows.bottom < self.lines@.len(),
                        m <= rows.bottom + 1,
                        k + m <= rows.bottom ==> rows.right < self.lines@[k + m].cells@.len(),
                        l.cells@.len() == self.lines@[k as int].cells@.len(),
                        l.size == self.lines@[k as int].size,
                        l.wrapped == self.lines@[k as int].wrapped,
                        forall|i: int| 0 <= i < l.cells@.len() ==> #[trigger] l.cells@[i] == (if rows.left <= i < j {
                            if m <= rows.bottom && k <= rows.bottom - m { self.lines@[k + m].cells@[i] } else { fill }
                        } else {
                            self.lines@[k as int].cells@[i]
                        }),
                    decreases rows.right + 1 - j,
                {
                    let c = if m <= rows.bottom && k <= rows.bottom - m {
                        self.lines[k + m].cell(j)
                    } else {
                        fill
                    };
                    l.set_cell(j, c);
                    j = j + 1;
                }
                assert(line_view(l) == target[k as int]) by {
                    assert(l.cells@ =~= target[k as int].0);
                }
                l
            };
            assert(line_view(l) == target[k as int]);
            proof {
                lemma_view_push(out@, l);
            }
            out.push(l);
            k = k + 1;
            assert(lines_view(out@) =~= target.subrange(0, k as int));
        }
        let mut taken: Vec<Line> = Vec::new();
        if full {
            let mut i: usize = 0;
            while i < m
                invariant
                    i <= m,
                    self.lines@ == old(self).lines@,
                    rows.top + m <= len,
                    len == self.lines@.len(),
                    lines_view(taken@) == old(self).view().subrange(rows.top as int, rows.top + i),
                decreases m - i,
            {
                let l = self.lines[rows.top + i].copy();
                proof {
                    lemma_view_push(taken@, l);
                }
                taken.push(l);
                i = i + 1;
                assert(lines_view(taken@) =~= old(self).view().subrange(rows.top as int, rows.top + i));
            }
        }
        assert(lines_view(out@) =~= target);
        self.lines = out;
        taken
    }
}

impl Grid {
    /// Scrolls rows `top..=bottom`, columns `left..=right` down by `n`.
    pub fn scroll_down(&mut self, rows: Region, n: usize, fill: Cell)
        requires
            rows.top <= rows.bottom < old(self).view().len(),
            rows.left <= rows.right,
            !(rows.left == 0 && rows.right + 1 >= old(self).width()) ==> forall|k: int| rows.top <= k <= rows.bottom
                ==> rows.right < #[trigger] old(self).view()[k].0.len(),
        ensures
            final(self).view() == scrolled_down(old(self).view(), old(self).width(), rows, n as int, fill),
            final(self).width() == old(self).width(),
    {
        let len = self.lines.len();
        assert(old(self).view().len() == len);
        assert(rows.bottom < len);
        let height = rows.bottom - rows.top + 1;
        let m = if n < height { n } else { height };
        if m == 0 {
            return;
        }
        let ghost target = scrolled_down(old(self).view(), old(self).width(), rows, n as int, fill);
        let full = rows.left == 0 && (rows.right >= self.cols || self.cols - rows.right <= 1);
        let mut out: Vec<Line> = Vec::new();
        let mut k: usize = 0;
        while k < len
            invariant
                k <= len,
                len == self.lines@.len(),
                self.lines@ == old(self).lines@,
                self.cols == old(self).cols,
                full == (rows.left == 0 && rows.right + 1 >= self.cols),
                height == rows.bottom - rows.top + 1,
                rows.top <= rows.bottom < len,
                rows.left <= rows.right,
                !full ==> forall|k: int| rows.top <= k <= rows.bottom ==> rows.right < #[trigger] old(self).view()[k].0.len(),
                m == min(n as int, height as int),
                m > 0,
                target == scrolled_down(old(self).view(), old(self).width(), rows, n as int, fill),
                lines_view(out@) == target.subrange(0, k as int),
            decreases len - k,
        {
            let l = if k < rows.top || k > rows.bottom {
                self.lines[k].copy()
            } else if full {
                if k - rows.top >= m {
                    self.lines[k - m].copy()
                } else {
                    let mut l = self.lines[k + (height - m)].copy();
                    l.clear(fill);
                    l
                }
            } else {
                let mut l = self.lines[k].copy();
                proof {
                    assert(old(self).view()[k as int].0 == self.lines@[k as int].cells@);
                    if k >= rows.top + m {
                        assert(old(self).view()[k - m].0 == self.lines@[k - m].cells@);
                    }
                }
                let lr = l.len();
                let mut j: usize = rows.left;
                while j <= rows.right
                    invariant
                        lr == l.cells@.len(),
                        rows.left <= j <= rows.right + 1,
                        rows.right < l.cells@.len(),
                        rows.top <= k <= rows.bottom,
                        rows.bottom < self.lines@.len(),
                        m <= rows.bottom + 1,
                        k >= rows.top + m ==> rows.right < self.lines@[k - m].cells@.len(),
                        l.cells@.len() == self.lines@[k as int].cells@.len(),
                        l.size == self.lines@[k as int].size,
                        l.wrapped == self.lines@[k as int].wrapped,
                        forall|i: int| 0 <= i < l.cells@.len() ==> #[trigger] l.cells@[i] == (if rows.left <= i < j {
                            if k >= rows.top + m { self.lines@[k - m].cells@[i] } else { fill }
                        } else {
                            self.lines@[k as int].cells@[i]
                        }),
                    decreases rows.right + 1 - j,
                {
                    let c = if k - rows.top >= m {
                        self.lines[k - m].cell(j)
                    } else {
                        fill
                    };
                    l.set_cell(j, c);
                    j = j + 1;
                }
                assert(line_view(l) == target[k as int]) by {
                    assert(l.cells@ =~= target[k as int].0);
                }
                l
            };
            assert(line_view(l) == target[k as int]);
            proof {
                lemma_view_push(out@, l);
            }
            out.push(l);
            k = k + 1;
            assert(lines_view(out@) =~= target.subrange(0, k as int));
        }
        assert(lines_view(out@) =~= target);
        self.lines = out;
    }

    /// Changes the page size. Lines are kept from the top; new cells are blank.
    pub fn resize(&mut self, rows: usize, cols: usize)
        ensures
            final(self).width() == cols,
            final(self).view() == Seq::new(rows as nat, |k: int| if k < old(self).view().len() {
                (resized(old(self).view()[k].0, cols as nat, blank_cell()), old(self).view()[k].1, old(self).view()[k].2)
            } else {
                fresh_line(cols as nat, blank_cell())
            }),
    {
        let ghost target = Seq::new(rows as nat, |k: int| if k < old(self).view().len() {
            (resized(old(self).view()[k].0, cols as nat, blank_cell()), old(self).view()[k].1, old(self).view()[k].2)
        } else {
            fresh_line(cols as nat, blank_cell())
        });
        let len = self.lines.len();
        let mut out: Vec<Line> = Vec::new();
        let mut k: usize = 0;
        while k < rows
            invariant
                k <= rows,
                len == self.lines@.len(),
                self.lines@ == old(self).lines@,
                target == Seq::new(rows as nat, |k: int| if k < old(self).view().len() {
                    (resized(old(self).view()[k].0, cols as nat, blank_cell()), old(self).view()[k].1, old(self).view()[k].2)
                } else {
                    fresh_line(cols as nat, blank_cell())
                }),
                lines_view(out@) == target.subrange(0, k as int),
            decreases rows - k,
        {
            let l = if k < len {
                let mut l = self.lines[k].copy();
                l.resize(cols, Cell::blank());
                l
            } else {
                Line::new(cols, Cell::blank())
            };
            assert(line_view(l) == target[k as int]);
            proof {
                lemma_view_push(out@, l);
            }
            out.push(l);
            k = k + 1;
            assert(lines_view(out@) =~= target.subrange(0, k as int));
        }
        assert(lines_view(out@) =~= target);
        self.lines = out;
        self.cols = cols;
    }

    /// Removes `n` lines from the top (e.g. when the page shrinks below the
    /// cursor); blank lines of the page width take their place at the bottom.
    pub fn drain_top(&mut self, n: usize) -> (taken: Vec<Line>)
        ensures
            final(self).width() == old(self).width(),
            lines_view(taken@) == old(self).view().subrange(0, min(n as int, old(self).view().len() as int)),
            final(self).view() == old(self).view().subrange(min(n as int, old(self).view().len() as int), old(self).view().len() as int)
                + Seq::new(min(n as int, old(self).view().len() as int) as nat, |k: int| fresh_line(old(self).width(), blank_cell())),
    {
        let len = self.lines.len();
        let m = if n < len { n } else { len };
        let ghost target = old(self).view().subrange(m as int, len as int) + Seq::new(m as nat, |k: int| fresh_line(old(self).width(), blank_cell()));
        let mut taken: Vec<Line> = Vec::new();
        let mut out: Vec<Line> = Vec::new();
        let mut k: usize = 0;
        while k < len
            invariant
                k <= len,
                m <= len,
                len == self.lines@.len(),
                self.lines@ == old(self).lines@,
                self.cols == old(self).cols,
                target == old(self).view().subrange(m as int, len as int) + Seq::new(m as nat, |k: int| fresh_line(old(self).width(), blank_cell())),
                k <= m ==> lines_view(taken@) == old(self).view().subrange(0, k as int) && out@.len() == 0,
                k > m ==> lines_view(taken@) == old(self).view().subrange(0, m as int) && lines_view(out@) == target.subrange(0, k - m),
            decreases len - k,
        {
            let l = self.lines[k].copy();
            if k < m {
                proof {
                    lemma_view_push(taken@, l);
                }
                taken.push(l);
                assert(lines_view(taken@) =~= old(self).view().subrange(0, k + 1));
            } else {
                proof {
                    lemma_view_push(out@, l);
                }
                out.push(l);
                assert(lines_view(out@) =~= target.subrange(0, k + 1 - m));
            }
            k = k + 1;
        }
        let mut i: usize = 0;
        while i < m
            invariant
                i <= m,
                m <= len,
                self.cols == old(self).cols,
                target == old(self).view().subrange(m as int, len as int) + Seq::new(m as nat, |k: int| fresh_line(old(self).width(), blank_cell())),
                lines_view(out@) == target.subrange(0, len - m + i),
                len == old(self).view().len(),
            decreases m - i,
        {
            let l = Line::new(self.cols, Cell::blank());
            proof {
                lemma_view_push(out@, l);
            }
            out.push(l);
            i = i + 1;
            assert(lines_view(out@) =~= target.subrange(0, len - m + i));
        }
        assert(lines_view(out@) =~= target);
        self.lines = out;
        taken
    }
}

} // verus!
