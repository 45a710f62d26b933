//! Text selection in the session's history.

use vstd::prelude::*;
use crate::cell::Cell;
use crate::charset::{SOFT_BASE, TECHNICAL_PUA};
use crate::grid::{Line, LineSize, line_view, lines_view};
use crate::text::{is_white, string_from};

verus! {

/// A position in the history (scrollback lines, then the displayed page),
/// in addressable columns, so double-width lines have half as many. With no
/// scrollback the row is the page row.
#[derive(Debug, Clone, Copy, PartialEq, Eq, PartialOrd, Ord, Hash, Structural)]
pub struct Point {
    pub row: usize,
    pub col: usize,
}

/// Reading order: by row, then by column.
pub open spec fn point_le(a: Point, b: Point) -> bool {
    a.row < b.row || (a.row == b.row && a.col <= b.col)
}

/// Whether `a` comes no later than `b` in reading order.
pub fn point_before(a: Point, b: Point) -> (r: bool)
    ensures
        r == point_le(a, b),
{
    a.row < b.row || (a.row == b.row && a.col <= b.col)
}

/// A linear (stream) selection between two points, inclusive.
#[derive(Debug, Clone, Copy, PartialEq, Eq, Hash, Structural)]
pub struct Selection {
    /// Where the selection started.
    pub anchor: Point,
    /// Where it currently ends.
    pub head: Point,
}

impl Selection {
    pub fn new(anchor: Point, head: Point) -> (r: Selection)
        ensures
            r == (Selection { anchor, head }),
    {
        Selection { anchor, head }
    }

    /// Start and end in reading order.
    pub fn ordered(&self) -> (r: (Point, Point))
        ensures
            point_le(self.anchor, self.head) ==> r == (self.anchor, self.head),
            !point_le(self.anchor, self.head) ==> r == (self.head, self.anchor),
            point_le(r.0, r.1),
    {
        if point_before(self.anchor, self.head) {
            (self.anchor, self.head)
        } else {
            (self.head, self.anchor)
        }
    }

    /// Whether the selection covers a position.
    pub fn contains(&self, row: usize, col: usize) -> (r: bool)
        ensures
            ({
                let p = Point { row, col };
                r == ((point_le(self.anchor, p) && point_le(p, self.head)) || (point_le(self.head, p) && point_le(
                    p,
                    self.anchor,
                )))
            }),
    {
        let (start, end) = self.ordered();
        let p = Point { row, col };
        point_before(start, p) && point_before(p, end)
    }
}

/// Characters that end a double-click word: white space, no-break space
/// and quotes, brackets and commas. VMS file specifications such as
/// `DKA0:[SYS0.SYSCOMMON]LOGIN.COM;1` select as one word, so `:`, `[`, `]`,
/// `.`, `;` and `<>` are word characters.
pub open spec fn word_char(ch: char) -> bool {
    !is_white(ch) && ch != '\u{A0}' && !(ch == '"' || ch == '\'' || ch == '(' || ch == ')' || ch == '{' || ch == '}'
        || ch == ',' || ch == '`')
}

/// Whether a character belongs to a double-click word.
pub fn is_word_char(ch: char) -> (r: bool)
    ensures
        r == word_char(ch),
{
    !crate::text::white(ch) && ch != '\u{A0}' && !(ch == '"' || ch == '\'' || ch == '(' || ch == ')' || ch == '{'
        || ch == '}' || ch == ',' || ch == '`')
}

/// What a line holds: its cells, its size and whether autowrap ended it.
pub type LineModel = (Seq<Cell>, LineSize, bool);

/// Addressable columns of a line: half its cells when it is double width.
pub open spec fn columns(l: LineModel) -> int {
    if l.1 != LineSize::Single {
        (l.0.len() / 2) as int
    } else {
        l.0.len() as int
    }
}

/// The smaller of two integers.
pub open spec fn least(a: int, b: int) -> int {
    if a <= b {
        a
    } else {
        b
    }
}

/// The history line a position falls on: the last line when it is past
/// the end.
pub open spec fn line_of(lines: Seq<LineModel>, row: int) -> LineModel {
    if row < lines.len() {
        lines[row]
    } else {
        lines[lines.len() - 1]
    }
}

/// The first column of the run of word characters that ends at `c`.
pub open spec fn word_start(cells: Seq<Cell>, c: int) -> int
    decreases c,
{
    if c > 0 && word_char(cells[c - 1].ch) {
        word_start(cells, c - 1)
    } else {
        c
    }
}

/// The last column, before `w`, of the run of word characters that starts
/// at `c`.
pub open spec fn word_end(cells: Seq<Cell>, w: int, c: int) -> int
    decreases w - c,
{
    if c + 1 < w && word_char(cells[c + 1].ch) {
        word_end(cells, w, c + 1)
    } else {
        c
    }
}

/// The selection a double-click at `p` makes: the column is held to the
/// line; on a word character, the whole run of word characters around it,
/// else that one position.
pub open spec fn word_span(lines: Seq<LineModel>, p: Point) -> Selection {
    let l = line_of(lines, p.row as int);
    let w = columns(l);
    let c = least(p.col as int, w - 1);
    if word_char(l.0[c].ch) {
        Selection {
            anchor: Point { row: p.row, col: word_start(l.0, c) as usize },
            head: Point { row: p.row, col: word_end(l.0, w, c) as usize },
        }
    } else {
        Selection { anchor: Point { row: p.row, col: c as usize }, head: Point { row: p.row, col: c as usize } }
    }
}

proof fn lemma_word_start(cells: Seq<Cell>, c: int)
    requires
        0 <= c < cells.len(),
        word_char(cells[c].ch),
    ensures
        0 <= word_start(cells, c) <= c,
        forall|k: int| word_start(cells, c) <= k <= c ==> word_char(#[trigger] cells[k].ch),
        word_start(cells, c) == 0 || !word_char(cells[word_start(cells, c) - 1].ch),
    decreases c,
{
    if c > 0 && word_char(cells[c - 1].ch) {
        lemma_word_start(cells, c - 1);
    }
}

proof fn lemma_word_end(cells: Seq<Cell>, w: int, c: int)
    requires
        0 <= c < w <= cells.len(),
        word_char(cells[c].ch),
    ensures
        c <= word_end(cells, w, c) < w,
        forall|k: int| c <= k <= word_end(cells, w, c) ==> word_char(#[trigger] cells[k].ch),
        word_end(cells, w, c) == w - 1 || !word_char(cells[word_end(cells, w, c) + 1].ch),
    decreases w - c,
{
    if c + 1 < w && word_char(cells[c + 1].ch) {
        lemma_word_end(cells, w, c + 1);
    }
}

/// A double-click on a word character selects the whole word around it:
/// the selection stays on the clicked row, covers the clicked column, holds
/// only word characters, and cannot grow on either side within the line.
pub proof fn lemma_word_span_is_whole_word(lines: Seq<LineModel>, p: Point)
    requires
        lines.len() > 0,
        columns(line_of(lines, p.row as int)) > 0,
        line_of(lines, p.row as int).0.len() <= usize::MAX,
        word_char(line_of(lines, p.row as int).0[least(p.col as int, columns(line_of(lines, p.row as int)) - 1)].ch),
    ensures
        ({
            let l = line_of(lines, p.row as int);
            let w = columns(l);
            let c = least(p.col as int, w - 1);
            let sp = word_span(lines, p);
            &&& sp.anchor.row == p.row && sp.head.row == p.row
            &&& sp.anchor.col <= c <= sp.head.col < w
            &&& forall|k: int| sp.anchor.col <= k <= sp.head.col ==> word_char(#[trigger] l.0[k].ch)
            &&& sp.anchor.col == 0 || !word_char(l.0[sp.anchor.col - 1].ch)
            &&& sp.head.col == w - 1 || !word_char(l.0[sp.head.col + 1].ch)
        }),
{
    let l = line_of(lines, p.row as int);
    let w = columns(l);
    let c = least(p.col as int, w - 1);
    lemma_word_start(l.0, c);
    lemma_word_end(l.0, w, c);
    let sp = word_span(lines, p);
    assert(sp.anchor.col == word_start(l.0, c));
    assert(sp.head.col == word_end(l.0, w, c));
    assert forall|k: int| sp.anchor.col <= k <= sp.head.col implies word_char(#[trigger] l.0[k].ch) by {
        if k <= c {
            assert(word_start(l.0, c) <= k <= c);
        } else {
            assert(c <= k <= word_end(l.0, w, c));
        }
    }
}

/// A double-click never selects across white space, a no-break space,
/// quotes, brackets, braces, a comma or a backquote: on such a character it
/// selects that position alone; elsewhere every character it selects is
/// none of them, and the selection ends at one of them or at the line's
/// end on each side.
pub proof fn lemma_word_span_stops_at_separators(lines: Seq<LineModel>, p: Point)
    requires
        lines.len() > 0,
        columns(line_of(lines, p.row as int)) > 0,
        line_of(lines, p.row as int).0.len() <= usize::MAX,
        columns(line_of(lines, p.row as int)) <= line_of(lines, p.row as int).0.len(),
    ensures
        ({
            let l = line_of(lines, p.row as int);
            let w = columns(l);
            let c = least(p.col as int, w - 1);
            let sp = word_span(lines, p);
            let ch = l.0[c].ch;
            let sep = is_white(ch) || ch == '\u{A0}' || ch == '"' || ch == '\'' || ch == '(' || ch == ')' || ch == '{'
                || ch == '}' || ch == ',' || ch == '`';
            &&& sep ==> sp == (Selection { anchor: Point { row: p.row, col: c as usize }, head: Point { row: p.row, col: c as usize } })
            &&& !sep ==> forall|k: int|
                sp.anchor.col <= k <= sp.head.col ==> {
                    let x = #[trigger] l.0[k].ch;
                    !(is_white(x) || x == '\u{A0}' || x == '"' || x == '\'' || x == '(' || x == ')' || x == '{' || x
                        == '}' || x == ',' || x == '`')
                }
            &&& !sep ==> sp.anchor.col == 0 || {
                let x = l.0[sp.anchor.col - 1].ch;
                is_white(x) || x == '\u{A0}' || x == '"' || x == '\'' || x == '(' || x == ')' || x == '{' || x == '}'
                    || x == ',' || x == '`'
            }
            &&& !sep ==> sp.head.col == w - 1 || {
                let x = l.0[sp.head.col + 1].ch;
                is_white(x) || x == '\u{A0}' || x == '"' || x == '\'' || x == '(' || x == ')' || x == '{' || x == '}'
                    || x == ',' || x == '`'
            }
        }),
{
    let l = line_of(lines, p.row as int);
    let w = columns(l);
    let c = least(p.col as int, w - 1);
    if word_char(l.0[c].ch) {
        lemma_word_span_is_whole_word(lines, p);
    }
}

/// The selection a triple-click on `row` makes: the whole of that line (the
/// last line when `row` is past the end).
pub open spec fn line_span(lines: Seq<LineModel>, row: int) -> Selection {
    let r = least(row, lines.len() - 1);
    Selection {
        anchor: Point { row: r as usize, col: 0 },
        head: Point { row: r as usize, col: (columns(lines[r]) - 1) as usize },
    }
}

/// The word under `p`, for a double-click; just `p` when it is not on a
/// word character.
pub fn word_at(lines: &Vec<Line>, p: Point) -> (r: Selection)
    requires
        lines.len() > 0,
        columns(line_of(lines_view(lines@), p.row as int)) > 0,
    ensures
        r == word_span(lines_view(lines@), p),
{
    let ghost lv = lines_view(lines@);
    let line = if p.row < lines.len() {
        &lines[p.row]
    } else {
        &lines[lines.len() - 1]
    };
    assert(line_view(*line) == line_of(lv, p.row as int));
    let w = line.width();
    let col = if p.col < w - 1 {
        p.col
    } else {
        w - 1
    };
    if !is_word_char(line.cells[col].ch) {
        return Selection::new(Point { row: p.row, col }, Point { row: p.row, col });
    }
    let mut s = col;
    while s > 0 && is_word_char(line.cells[s - 1].ch)
        invariant
            s <= col,
            col < w,
            w <= line.cells@.len(),
            word_start(line.cells@, s as int) == word_start(line.cells@, col as int),
        decreases s,
    {
        s = s - 1;
    }
    let mut e = col;
    while e + 1 < w && is_word_char(line.cells[e + 1].ch)
        invariant
            col <= e < w,
            w <= line.cells@.len(),
            word_end(line.cells@, w as int, e as int) == word_end(line.cells@, w as int, col as int),
        decreases w - e,
    {
        e = e + 1;
    }
    Selection::new(Point { row: p.row, col: s }, Point { row: p.row, col: e })
}

/// The whole line containing `row`, for a triple-click.
pub fn line_at(lines: &Vec<Line>, row: usize) -> (r: Selection)
    requires
        lines.len() > 0,
        columns(lines_view(lines@)[least(row as int, lines.len() - 1)]) > 0,
    ensures
        r == line_span(lines_view(lines@), row as int),
{
    let r = if row < lines.len() - 1 {
        row
    } else {
        lines.len() - 1
    };
    let last = lines[r].width() - 1;
    Selection::new(Point { row: r, col: 0 }, Point { row: r, col: last })
}

/// A screen cell's character as clipboard text. Soft (DRCS) characters
/// become the code the host sent for them when it is a graphic ASCII
/// character, else `?`; the DEC Technical summation pieces become the
/// Unicode summation halves and the other pieces `>`; a no-break space
/// becomes a space.
pub open spec fn copied_char(ch: char) -> char {
    let code = ch as u32;
    if code >= SOFT_BASE {
        let c = ((code - SOFT_BASE) % 128) as u8;
        if 0x21 <= c <= 0x7E {
            c as char
        } else {
            '?'
        }
    } else if TECHNICAL_PUA <= code < TECHNICAL_PUA + 0x20 {
        let k = code - TECHNICAL_PUA;
        if k == 1 || k == 3 || k == 5 {
            '\u{23B2}'
        } else if k == 2 || k == 4 || k == 6 {
            '\u{23B3}'
        } else {
            '>'
        }
    } else if ch == '\u{A0}' {
        ' '
    } else {
        ch
    }
}

/// The clipboard character for a cell's character.
pub fn copy_char(ch: char) -> (r: char)
    ensures
        r == copied_char(ch),
{
    let code = ch as u32;
    if code >= SOFT_BASE {
        let c: u8 = ((code - SOFT_BASE) % 128) as u8;
        if 0x21 <= c && c <= 0x7E {
            c as char
        } else {
            '?'
        }
    } else if TECHNICAL_PUA <= code && code < TECHNICAL_PUA + 0x20 {
        let k = code - TECHNICAL_PUA;
        if k == 1 || k == 3 || k == 5 {
            '\u{23B2}'
        } else if k == 2 || k == 4 || k == 6 {
            '\u{23B3}'
        } else {
            '>'
        }
    } else if ch == '\u{A0}' {
        ' '
    } else {
        ch
    }
}

/// `s` without its trailing spaces.
pub open spec fn trim_spaces(s: Seq<char>) -> Seq<char>
    decreases s.len(),
{
    if s.len() > 0 && s.last() == ' ' {
        trim_spaces(s.drop_last())
    } else {
        s
    }
}

/// What row `row` of a selection from `start` to `end` contributes: the
/// selected columns of the line as clipboard characters; where the
/// selection runs to the end of the line, without trailing spaces, and
/// followed by a line break unless it is the last row or autowrap joined
/// the line to the next.
pub open spec fn row_text(l: LineModel, start: Point, end: Point, row: int) -> Seq<char> {
    let w = columns(l);
    let from = if row == start.row {
        least(start.col as int, w)
    } else {
        0
    };
    let to = if row == end.row {
        least(end.col + 1, w)
    } else {
        w
    };
    let upto = if to < from {
        from
    } else {
        to
    };
    let text = l.0.subrange(from, upto).map_values(|c: Cell| copied_char(c.ch));
    if row != end.row || end.col + 1 >= w {
        trim_spaces(text) + (if row != end.row && !l.2 {
            seq!['\n']
        } else {
            Seq::<char>::empty()
        })
    } else {
        text
    }
}

/// The text of rows `first` up to, not including, `stop`.
pub open spec fn rows_text(lines: Seq<LineModel>, start: Point, end: Point, first: int, stop: int) -> Seq<char>
    decreases stop - first,
{
    if stop <= first {
        Seq::empty()
    } else {
        rows_text(lines, start, end, first, stop - 1) + row_text(lines[stop - 1], start, end, stop - 1)
    }
}

/// Start and end of a selection in reading order.
pub open spec fn in_order(s: Selection) -> (Point, Point) {
    if point_le(s.anchor, s.head) {
        (s.anchor, s.head)
    } else {
        (s.head, s.anchor)
    }
}

/// The text a selection copies: each of its rows that the history holds,
/// in order.
pub open spec fn selected_text(lines: Seq<LineModel>, s: Selection) -> Seq<char> {
    let (start, end) = in_order(s);
    let stop = if lines.len() == 0 {
        0
    } else {
        least(end.row as int, lines.len() - 1) + 1
    };
    rows_text(lines, start, end, start.row as int, stop)
}

proof fn lemma_trim_spaces(s: Seq<char>)
    ensures
        trim_spaces(s).len() == 0 || trim_spaces(s).last() != ' ',
        trim_spaces(s).len() <= s.len(),
    decreases s.len(),
{
    if s.len() > 0 && s.last() == ' ' {
        lemma_trim_spaces(s.drop_last());
    }
}

/// A row that a selection runs past ends in a line break unless autowrap
/// joined it to the next, and its trailing blanks are dropped: before the
/// break, or at the end when joined, there is no space.
pub proof fn lemma_row_ends(l: LineModel, start: Point, end: Point, row: int)
    requires
        row != end.row,
    ensures
        ({
            let t = row_text(l, start, end, row);
            &&& !l.2 ==> t.len() > 0 && t.last() == '\n' && (t.len() < 2 || t[t.len() - 2] != ' ')
            &&& l.2 ==> t.len() == 0 || t.last() != ' '
        }),
{
    let w = columns(l);
    let from = if row == start.row { least(start.col as int, w) } else { 0 };
    let upto = if w < from { from } else { w };
    let text = l.0.subrange(from, upto).map_values(|c: Cell| copied_char(c.ch));
    lemma_trim_spaces(text);
    let tt = trim_spaces(text);
    if !l.2 {
        assert(row_text(l, start, end, row) == tt + seq!['\n']);
        assert((tt + seq!['\n']).last() == '\n');
        if tt.len() >= 1 {
            assert((tt + seq!['\n'])[tt.len() - 1] == tt.last());
        }
    } else {
        assert(row_text(l, start, end, row) =~= tt);
    }
}

/// A triple-click selects the whole clicked line, from its first column
/// to its last, on that row, or on the last line when the row is past the
/// end.
pub proof fn lemma_line_span_is_whole_line(lines: Seq<LineModel>, row: int)
    requires
        0 <= row,
        0 < lines.len() <= usize::MAX,
        columns(lines[least(row, lines.len() - 1)]) > 0,
        columns(lines[least(row, lines.len() - 1)]) <= usize::MAX,
    ensures
        ({
            let sp = line_span(lines, row);
            let r = if row < lines.len() { row } else { lines.len() - 1 };
            &&& sp.anchor.row == r && sp.head.row == r
            &&& sp.anchor.col == 0
            &&& sp.head.col == columns(lines[r]) - 1
        }),
{
}

/// A selection copies the same text whichever of its ends is the anchor,
/// so dragging either way selects the same thing.
pub proof fn lemma_selected_text_either_way(lines: Seq<LineModel>, a: Point, b: Point)
    ensures
        selected_text(lines, Selection { anchor: a, head: b }) == selected_text(
            lines,
            Selection { anchor: b, head: a },
        ),
{
    if point_le(a, b) && point_le(b, a) {
        assert(a == b);
    }
}

/// The characters that row `row` contributes to a selection.
fn row_chars(line: &Line, start: Point, end: Point, row: usize) -> (r: Vec<char>)
    ensures
        r@ == row_text(line_view(*line), start, end, row as int),
{
    let w = line.width();
    let last_row = row == end.row;
    let from = if row == start.row {
        if start.col < w {
            start.col
        } else {
            w
        }
    } else {
        0
    };
    let to = if last_row {
        if end.col < w {
            end.col + 1
        } else {
            w
        }
    } else {
        w
    };
    let upto = if to < from {
        from
    } else {
        to
    };
    let to_end = !last_row || end.col >= w || end.col + 1 == w;
    let mut text: Vec<char> = Vec::new();
    let mut i = from;
    while i < upto
        invariant
            from <= i <= upto,
            upto <= line.cells@.len(),
            text@ == line.cells@.subrange(from as int, i as int).map_values(|c: Cell| copied_char(c.ch)),
        decreases upto - i,
    {
        let c = copy_char(line.cells[i].ch);
        text.push(c);
        i = i + 1;
        assert(text@ =~= line.cells@.subrange(from as int, i as int).map_values(|c: Cell| copied_char(c.ch)));
    }
    if to_end {
        let ghost whole = text@;
        while text.len() > 0 && text[text.len() - 1] == ' '
            invariant
                trim_spaces(text@) == trim_spaces(whole),
            decreases text.len(),
        {
            text.pop();
        }
        if !last_row && !line.wrapped {
            text.push('\n');
        }
    }
    text
}

/// The selected text, for the clipboard. Trailing blanks are dropped from
/// each line; lines joined by autowrap are not separated by a line break.
pub fn selection_text(lines: &Vec<Line>, selection: &Selection) -> (r: String)
    ensures
        r@ == selected_text(lines_view(lines@), *selection),
{
    let ghost lv = lines_view(lines@);
    let (start, end) = selection.ordered();
    let stop: usize = if lines.len() == 0 {
        0
    } else if end.row < lines.len() - 1 {
        end.row + 1
    } else {
        lines.len()
    };
    let mut out: Vec<char> = Vec::new();
    if start.row < stop {
        let mut row = start.row;
        while row < stop
            invariant
                start.row <= row <= stop,
                stop <= lines.len(),
                lv == lines_view(lines@),
                out@ == rows_text(lv, start, end, start.row as int, row as int),
            decreases stop - row,
        {
            let mut piece = row_chars(&lines[row], start, end, row);
            out.append(&mut piece);
            row = row + 1;
        }
    }
    string_from(&out)
}

} // verus!
