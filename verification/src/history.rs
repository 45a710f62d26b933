//! Searching the session's history (scrollback lines, then the displayed
//! page) for text, ignoring case.

use vstd::prelude::*;
use crate::cell::Cell;
use crate::grid::{Line, line_view, lines_view};
use crate::selection::{LineModel, columns, least};
use crate::text::str_chars;

verus! {

/// Where search text was found: a history line, the first cell and the
/// number of cells.
#[derive(Debug, Clone, Copy, PartialEq, Eq, Structural)]
pub struct Found {
    pub line: usize,
    pub col: usize,
    pub len: usize,
}

/// The characters `char::to_lowercase` yields for `c`.
pub uninterp spec fn lowercase(c: char) -> Seq<char>;

/// `char::to_lowercase`, collected: the lower-case mapping of `c` by the
/// Unicode tables of the standard library. The contract names the result
/// and says nothing more of it.
#[verifier::external_body]
fn to_lowercase(c: char) -> (r: Vec<char>)
    ensures
        r@ == lowercase(c),
{
    c.to_lowercase().collect()
}

/// Search text folded to lower case: every character's lower-case mapping,
/// in order.
pub open spec fn folded(text: Seq<char>) -> Seq<char>
    decreases text.len(),
{
    if text.len() == 0 {
        Seq::empty()
    } else {
        folded(text.drop_last()) + lowercase(text.last())
    }
}

/// A cell's character as searched: the first character of its lower-case
/// mapping.
pub open spec fn folded_char(c: char) -> char {
    if lowercase(c).len() > 0 {
        lowercase(c)[0]
    } else {
        c
    }
}

/// A line as searched: its addressable columns, each folded.
pub open spec fn searched_line(l: LineModel) -> Seq<char> {
    l.0.subrange(0, columns(l)).map_values(|c: Cell| folded_char(c.ch))
}

/// Whether `needle` stands in `hay` from column `i`.
pub open spec fn matches_at(hay: Seq<char>, needle: Seq<char>, i: int) -> bool {
    0 <= i && i + needle.len() <= hay.len() && hay.subrange(i, i + needle.len()) == needle
}

/// One past the last column where `needle` could start in `hay`.
pub open spec fn starts_end(hay: Seq<char>, needle: Seq<char>) -> int {
    if hay.len() + 1 >= needle.len() {
        hay.len() + 1 - needle.len()
    } else {
        0
    }
}

/// The first column in `lo..hi` where `needle` stands in `hay`.
pub open spec fn first_in(hay: Seq<char>, needle: Seq<char>, lo: int, hi: int) -> Option<int>
    decreases hi - lo,
{
    if lo >= hi {
        None
    } else if matches_at(hay, needle, lo) {
        Some(lo)
    } else {
        first_in(hay, needle, lo + 1, hi)
    }
}

/// The last column in `lo..hi` where `needle` stands in `hay`.
pub open spec fn last_in(hay: Seq<char>, needle: Seq<char>, lo: int, hi: int) -> Option<int>
    decreases hi - lo,
{
    if lo >= hi {
        None
    } else if matches_at(hay, needle, hi - 1) {
        Some(hi - 1)
    } else {
        last_in(hay, needle, lo, hi - 1)
    }
}

/// The column the search starts from: the one given, else the start of
/// the history going forwards and the end going backwards.
pub open spec fn start_col(from: Option<(usize, usize)>, backwards: bool) -> int {
    match from {
        Some((_, c)) => c as int,
        None => if backwards {
            usize::MAX as int
        } else {
            0
        },
    }
}

/// The line the search starts from, held to the history.
pub open spec fn start_line(total: int, from: Option<(usize, usize)>, backwards: bool) -> int {
    match from {
        Some((l, _)) => least(l as int, total - 1),
        None => if backwards {
            total - 1
        } else {
            0
        },
    }
}

/// The line looked at in step `step`: the starting line, then each other
/// line in the direction of the search, wrapping around, then the starting
/// line again.
pub open spec fn step_line(first: int, total: int, step: int, backwards: bool) -> int {
    if backwards {
        if step <= first {
            first - step
        } else {
            first + total - step
        }
    } else if first + step < total {
        first + step
    } else {
        first + step - total
    }
}

/// The match taken on the line of step `step`: on the starting line first
/// only past the starting column (any match when no position was given),
/// on the starting line again at the end only up to it, and elsewhere the
/// nearest in the direction of the search.
pub open spec fn pick(
    hay: Seq<char>,
    needle: Seq<char>,
    step: int,
    total: int,
    from: Option<(usize, usize)>,
    backwards: bool,
) -> Option<int> {
    let hi = starts_end(hay, needle);
    let sc = start_col(from, backwards);
    if step == 0 {
        if backwards {
            if from is Some {
                last_in(hay, needle, 0, least(sc, hi))
            } else {
                last_in(hay, needle, 0, hi)
            }
        } else if from is Some {
            first_in(hay, needle, sc + 1, hi)
        } else {
            first_in(hay, needle, 0, hi)
        }
    } else if step == total {
        if backwards {
            last_in(hay, needle, sc, hi)
        } else {
            first_in(hay, needle, 0, least(sc + 1, hi))
        }
    } else if backwards {
        last_in(hay, needle, 0, hi)
    } else {
        first_in(hay, needle, 0, hi)
    }
}

/// The search from step `step` on.
pub open spec fn search_from(
    hays: Seq<Seq<char>>,
    needle: Seq<char>,
    from: Option<(usize, usize)>,
    backwards: bool,
    step: int,
) -> Option<Found>
    decreases hays.len() + 1 - step,
{
    let total = hays.len() as int;
    if step < 0 || step > total {
        None
    } else {
        let index = step_line(start_line(total, from, backwards), total, step, backwards);
        match pick(hays[index], needle, step, total, from, backwards) {
            Some(col) => Some(Found { line: index as usize, col: col as usize, len: needle.len() as usize }),
            None => search_from(hays, needle, from, backwards, step + 1),
        }
    }
}

/// Where a search for `needle` in the searched lines `hays` lands: nowhere
/// for empty search text or an empty history.
pub open spec fn found(hays: Seq<Seq<char>>, needle: Seq<char>, from: Option<(usize, usize)>, backwards: bool) -> Option<
    Found,
> {
    if needle.len() == 0 || hays.len() == 0 {
        None
    } else {
        search_from(hays, needle, from, backwards, 0)
    }
}

proof fn lemma_first_in(hay: Seq<char>, needle: Seq<char>, lo: int, hi: int)
    ensures
        first_in(hay, needle, lo, hi) matches Some(i) ==> lo <= i < hi && matches_at(hay, needle, i),
    decreases hi - lo,
{
    if lo < hi && !matches_at(hay, needle, lo) {
        lemma_first_in(hay, needle, lo + 1, hi);
    }
}

proof fn lemma_last_in(hay: Seq<char>, needle: Seq<char>, lo: int, hi: int)
    ensures
        last_in(hay, needle, lo, hi) matches Some(i) ==> lo <= i < hi && matches_at(hay, needle, i),
    decreases hi - lo,
{
    if lo < hi && !matches_at(hay, needle, hi - 1) {
        lemma_last_in(hay, needle, lo, hi - 1);
    }
}

proof fn lemma_search_from(
    hays: Seq<Seq<char>>,
    needle: Seq<char>,
    from: Option<(usize, usize)>,
    backwards: bool,
    step: int,
)
    requires
        0 < hays.len() <= usize::MAX,
        forall|i: int| 0 <= i < hays.len() ==> (#[trigger] hays[i]).len() < usize::MAX,
        step >= 0,
    ensures
        search_from(hays, needle, from, backwards, step) matches Some(f) ==> f.line < hays.len() && f.len
            == needle.len() as usize && matches_at(hays[f.line as int], needle, f.col as int),
    decreases hays.len() + 1 - step,
{
    let total = hays.len() as int;
    if step <= total {
        let first = start_line(total, from, backwards);
        let index = step_line(first, total, step, backwards);
        assert(0 <= index < total);
        let hay = hays[index];
        let hi = starts_end(hay, needle);
        let sc = start_col(from, backwards);
        lemma_first_in(hay, needle, 0, hi);
        lemma_last_in(hay, needle, 0, hi);
        lemma_first_in(hay, needle, sc + 1, hi);
        lemma_last_in(hay, needle, 0, least(sc, hi));
        lemma_last_in(hay, needle, sc, hi);
        lemma_first_in(hay, needle, 0, least(sc + 1, hi));
        lemma_search_from(hays, needle, from, backwards, step + 1);
    }
}

/// What a search finds is a match: a line of the history where the search
/// text stands at the column found, as long as the search text.
pub proof fn lemma_found_is_a_match(
    hays: Seq<Seq<char>>,
    needle: Seq<char>,
    from: Option<(usize, usize)>,
    backwards: bool,
)
    requires
        hays.len() <= usize::MAX,
        forall|i: int| 0 <= i < hays.len() ==> (#[trigger] hays[i]).len() < usize::MAX,
    ensures
        found(hays, needle, from, backwards) matches Some(f) ==> f.line < hays.len() && f.len == needle.len() as usize
            && matches_at(hays[f.line as int], needle, f.col as int),
{
    if needle.len() > 0 && hays.len() > 0 {
        lemma_search_from(hays, needle, from, backwards, 0);
    }
}

proof fn lemma_first_in_finds(hay: Seq<char>, needle: Seq<char>, lo: int, hi: int, c: int)
    requires
        lo <= c < hi,
        matches_at(hay, needle, c),
    ensures
        first_in(hay, needle, lo, hi) is Some,
    decreases hi - lo,
{
    if !matches_at(hay, needle, lo) {
        lemma_first_in_finds(hay, needle, lo + 1, hi, c);
    }
}

proof fn lemma_last_in_finds(hay: Seq<char>, needle: Seq<char>, lo: int, hi: int, c: int)
    requires
        lo <= c < hi,
        matches_at(hay, needle, c),
    ensures
        last_in(hay, needle, lo, hi) is Some,
    decreases hi - lo,
{
    if !matches_at(hay, needle, hi - 1) {
        lemma_last_in_finds(hay, needle, lo, hi - 1, c);
    }
}

proof fn lemma_search_reaches(
    hays: Seq<Seq<char>>,
    needle: Seq<char>,
    from: Option<(usize, usize)>,
    backwards: bool,
    step: int,
    s: int,
)
    requires
        0 <= step <= s <= hays.len(),
        pick(
            hays[step_line(start_line(hays.len() as int, from, backwards), hays.len() as int, s, backwards)],
            needle,
            s,
            hays.len() as int,
            from,
            backwards,
        ) is Some,
    ensures
        search_from(hays, needle, from, backwards, step) is Some,
    decreases s - step,
{
    let total = hays.len() as int;
    let index = step_line(start_line(total, from, backwards), total, step, backwards);
    if pick(hays[index], needle, step, total, from, backwards) is None {
        lemma_search_reaches(hays, needle, from, backwards, step + 1, s);
    }
}

/// A search finds something whenever the search text stands anywhere in
/// the history: it wraps around every line, and comes back to the start
/// line for the columns it skipped there.
pub proof fn lemma_search_finds_every_match(
    hays: Seq<Seq<char>>,
    needle: Seq<char>,
    from: Option<(usize, usize)>,
    backwards: bool,
    line: int,
    col: int,
)
    requires
        needle.len() > 0,
        0 <= line < hays.len(),
        matches_at(hays[line], needle, col),
    ensures
        found(hays, needle, from, backwards) is Some,
{
    let total = hays.len() as int;
    let first = start_line(total, from, backwards);
    let hay = hays[line];
    let hi = starts_end(hay, needle);
    let sc = start_col(from, backwards);
    assert(col < hi);
    let s = if line == first {
        if backwards {
            if from is Some && col >= sc {
                total
            } else {
                0
            }
        } else if from is Some && col <= sc {
            total
        } else {
            0
        }
    } else if backwards {
        if line < first {
            first - line
        } else {
            first + total - line
        }
    } else if line > first {
        line - first
    } else {
        line + total - first
    };
    assert(step_line(first, total, s, backwards) == line);
    if s == 0 {
        if backwards {
            if from is Some {
                lemma_last_in_finds(hay, needle, 0, least(sc, hi), col);
            } else {
                lemma_last_in_finds(hay, needle, 0, hi, col);
            }
        } else if from is Some {
            lemma_first_in_finds(hay, needle, sc + 1, hi, col);
        } else {
            lemma_first_in_finds(hay, needle, 0, hi, col);
        }
    } else if s == total {
        if backwards {
            lemma_last_in_finds(hay, needle, sc, hi, col);
        } else {
            lemma_first_in_finds(hay, needle, 0, least(sc + 1, hi), col);
        }
    } else if backwards {
        lemma_last_in_finds(hay, needle, 0, hi, col);
    } else {
        lemma_first_in_finds(hay, needle, 0, hi, col);
    }
    lemma_search_reaches(hays, needle, from, backwards, 0, s);
}

proof fn lemma_first_in_least(hay: Seq<char>, needle: Seq<char>, lo: int, hi: int)
    ensures
        first_in(hay, needle, lo, hi) matches Some(i) ==> forall|j: int| lo <= j < i ==> !matches_at(hay, needle, j),
    decreases hi - lo,
{
    if lo < hi && !matches_at(hay, needle, lo) {
        lemma_first_in_least(hay, needle, lo + 1, hi);
    }
}

proof fn lemma_last_in_greatest(hay: Seq<char>, needle: Seq<char>, lo: int, hi: int)
    ensures
        last_in(hay, needle, lo, hi) matches Some(i) ==> forall|j: int| i < j < hi ==> !matches_at(hay, needle, j),
    decreases hi - lo,
{
    if lo < hi && !matches_at(hay, needle, hi - 1) {
        lemma_last_in_greatest(hay, needle, lo, hi - 1);
    }
}

/// Searching on from a position finds the nearest match on that line
/// first: forwards the first match right of the column, backwards the
/// last match left of it, when there is one.
pub proof fn lemma_search_finds_nearest_on_the_line(
    hays: Seq<Seq<char>>,
    needle: Seq<char>,
    line: usize,
    col: usize,
    backwards: bool,
    c: int,
)
    requires
        needle.len() > 0,
        line < hays.len() <= usize::MAX,
        forall|i: int| 0 <= i < hays.len() ==> (#[trigger] hays[i]).len() < usize::MAX,
        matches_at(hays[line as int], needle, c),
        backwards ==> c < col,
        !backwards ==> c > col,
    ensures
        found(hays, needle, Some((line, col)), backwards) matches Some(f) && f.line == line && (if backwards {
            f.col < col && c <= f.col
        } else {
            col < f.col && f.col <= c
        }) && matches_at(hays[line as int], needle, f.col as int) && forall|j: int|
            (if backwards { f.col < j < col } else { col < j < f.col }) ==> !matches_at(hays[line as int], needle, j),
{
    let total = hays.len() as int;
    let hay = hays[line as int];
    let hi = starts_end(hay, needle);
    assert(c < hi);
    assert(start_line(total, Some((line, col)), backwards) == line);
    assert(step_line(line as int, total, 0, backwards) == line);
    if backwards {
        let top = least(col as int, hi);
        lemma_last_in_finds(hay, needle, 0, top, c);
        lemma_last_in(hay, needle, 0, top);
        lemma_last_in_greatest(hay, needle, 0, top);
        let i = last_in(hay, needle, 0, top)->0;
        assert forall|j: int| i < j < col implies !matches_at(hay, needle, j) by {
            if j < top {
            } else {
                assert(j >= hi);
            }
        }
    } else {
        lemma_first_in_finds(hay, needle, col + 1, hi, c);
        lemma_first_in(hay, needle, col + 1, hi);
        lemma_first_in_least(hay, needle, col + 1, hi);
    }
}

/// The contents of searched lines.
pub open spec fn hays_view(hays: Seq<Vec<char>>) -> Seq<Seq<char>> {
    hays.map_values(|h: Vec<char>| h@)
}

/// Whether `needle` stands in `hay` from column `i`.
fn match_at(hay: &Vec<char>, needle: &Vec<char>, i: usize) -> (r: bool)
    ensures
        r == matches_at(hay@, needle@, i as int),
{
    if i > hay.len() || needle.len() > hay.len() - i {
        return false;
    }
    let mut k: usize = 0;
    while k < needle.len()
        invariant
            k <= needle@.len(),
            i + needle@.len() <= hay.len(),
            hay@.subrange(i as int, i + k) == needle@.subrange(0, k as int),
        decreases needle@.len() - k,
    {
        if hay[i + k] != needle[k] {
            assert(hay@.subrange(i as int, i + needle@.len())[k as int] != needle@[k as int]);
            return false;
        }
        k = k + 1;
        assert(hay@.subrange(i as int, i + k) =~= needle@.subrange(0, k as int));
    }
    assert(needle@.subrange(0, k as int) =~= needle@);
    true
}

fn first_match(hay: &Vec<char>, needle: &Vec<char>, lo: usize, hi: usize) -> (r: Option<usize>)
    ensures
        match r {
            Some(i) => first_in(hay@, needle@, lo as int, hi as int) == Some(i as int),
            None => first_in(hay@, needle@, lo as int, hi as int) is None,
        },
{
    let mut i = lo;
    while i < hi
        invariant
            lo <= i || hi <= lo,
            first_in(hay@, needle@, lo as int, hi as int) == first_in(hay@, needle@, i as int, hi as int),
        decreases hi - i,
    {
        if match_at(hay, needle, i) {
            return Some(i);
        }
        i = i + 1;
    }
    None
}

fn last_match(hay: &Vec<char>, needle: &Vec<char>, lo: usize, hi: usize) -> (r: Option<usize>)
    ensures
        match r {
            Some(i) => last_in(hay@, needle@, lo as int, hi as int) == Some(i as int),
            None => last_in(hay@, needle@, lo as int, hi as int) is None,
        },
{
    let mut j = hi;
    while j > lo
        invariant
            j <= hi,
            last_in(hay@, needle@, lo as int, hi as int) == last_in(hay@, needle@, lo as int, j as int),
        decreases j,
    {
        if match_at(hay, needle, j - 1) {
            return Some(j - 1);
        }
        j = j - 1;
    }
    None
}

/// Finds `needle` among lines already folded for search, before or after
/// `from` (a line and column), wrapping around; from the end backwards, or
/// the start forwards, when `from` is `None`.
pub fn find_in(hays: &Vec<Vec<char>>, needle: &Vec<char>, from: Option<(usize, usize)>, backwards: bool) -> (r:
    Option<Found>)
    ensures
        r == found(hays_view(hays@), needle@, from, backwards),
{
    let ghost hv = hays_view(hays@);
    let total = hays.len();
    if needle.len() == 0 || total == 0 {
        return None;
    }
    let n = needle.len();
    let first: usize = match from {
        Some((l, _)) => if l < total - 1 {
            l
        } else {
            total - 1
        },
        None => if backwards {
            total - 1
        } else {
            0
        },
    };
    let sc: usize = match from {
        Some((_, c)) => c,
        None => if backwards {
            usize::MAX
        } else {
            0
        },
    };
    let mut step: usize = 0;
    loop
        invariant
            step <= total,
            first < total,
            total == hv.len(),
            n == needle@.len(),
            n > 0,
            first == start_line(total as int, from, backwards),
            sc == start_col(from, backwards),
            hv == hays_view(hays@),
            found(hv, needle@, from, backwards) == search_from(hv, needle@, from, backwards, step as int),
        decreases total - step,
    {
        let index: usize = if backwards {
            if step <= first {
                first - step
            } else {
                first + (total - step)
            }
        } else if step < total - first {
            first + step
        } else {
            step - (total - first)
        };
        assert(index == step_line(first as int, total as int, step as int, backwards));
        let hay = &hays[index];
        assert(hv[index as int] == hay@);
        let limit: usize = if hay.len() >= n - 1 {
            hay.len() - (n - 1)
        } else {
            0
        };
        let chosen: Option<usize> = if step == 0 {
            if backwards {
                if from.is_some() {
                    last_match(hay, needle, 0, if sc < limit {
                        sc
                    } else {
                        limit
                    })
                } else {
                    last_match(hay, needle, 0, limit)
                }
            } else if from.is_some() {
                first_match(hay, needle, if sc < limit {
                    sc + 1
                } else {
                    limit
                }, limit)
            } else {
                first_match(hay, needle, 0, limit)
            }
        } else if step == total {
            if backwards {
                last_match(hay, needle, sc, limit)
            } else {
                first_match(hay, needle, 0, if sc < limit {
                    sc + 1
                } else {
                    limit
                })
            }
        } else if backwards {
            last_match(hay, needle, 0, limit)
        } else {
            first_match(hay, needle, 0, limit)
        };
        proof {
            let sp = pick(hv[index as int], needle@, step as int, total as int, from, backwards);
            assert(limit == starts_end(hay@, needle@));
            match chosen {
                Some(c) => assert(sp == Some(c as int)),
                None => assert(sp is None),
            }
        }
        match chosen {
            Some(col) => {
                return Some(Found { line: index, col, len: n });
            },
            None => {},
        }
        if step == total {
            assert(search_from(hv, needle@, from, backwards, step + 1) is None);
            return None;
        }
        step = step + 1;
    }
}

/// Every character's lower-case mapping, in order.
fn fold_text(text: &Vec<char>) -> (r: Vec<char>)
    ensures
        r@ == folded(text@),
{
    let mut out: Vec<char> = Vec::new();
    let mut i: usize = 0;
    while i < text.len()
        invariant
            i <= text@.len(),
            out@ == folded(text@.subrange(0, i as int)),
        decreases text@.len() - i,
    {
        let mut low = to_lowercase(text[i]);
        out.append(&mut low);
        i = i + 1;
        assert(text@.subrange(0, i as int).drop_last() =~= text@.subrange(0, i - 1));
    }
    assert(text@.subrange(0, i as int) =~= text@);
    out
}

/// A line's addressable columns, folded for search.
fn fold_line(line: &Line) -> (r: Vec<char>)
    ensures
        r@ == searched_line(line_view(*line)),
{
    let w = line.width();
    let mut out: Vec<char> = Vec::new();
    let mut i: usize = 0;
    while i < w
        invariant
            i <= w,
            w <= line.cells@.len(),
            w == columns(line_view(*line)),
            out@ == line.cells@.subrange(0, i as int).map_values(|c: Cell| folded_char(c.ch)),
        decreases w - i,
    {
        let ch = line.cells[i].ch;
        let low = to_lowercase(ch);
        let f = if low.len() > 0 {
            low[0]
        } else {
            ch
        };
        out.push(f);
        i = i + 1;
        assert(out@ =~= line.cells@.subrange(0, i as int).map_values(|c: Cell| folded_char(c.ch)));
    }
    out
}

/// The searched form of every history line.
pub open spec fn searched_lines(lines: Seq<LineModel>) -> Seq<Seq<char>> {
    lines.map_values(|l: LineModel| searched_line(l))
}

/// Finds `text`, ignoring case, in the history `lines` before or after
/// `from` (a line and column), wrapping around; from the end of the
/// history backwards, or its start forwards, when `from` is `None`.
pub fn find_text(lines: &Vec<Line>, text: &str, from: Option<(usize, usize)>, backwards: bool) -> (r: Option<Found>)
    ensures
        r == found(searched_lines(lines_view(lines@)), folded(text@), from, backwards),
{
    let chars = str_chars(text);
    let needle = fold_text(&chars);
    let mut hays: Vec<Vec<char>> = Vec::new();
    let mut i: usize = 0;
    while i < lines.len()
        invariant
            i <= lines@.len(),
            hays_view(hays@) == searched_lines(lines_view(lines@)).subrange(0, i as int),
        decreases lines@.len() - i,
    {
        let h = fold_line(&lines[i]);
        assert(lines_view(lines@)[i as int] == line_view(lines@[i as int]));
        assert(h@ == searched_lines(lines_view(lines@))[i as int]);
        let ghost prev = hays@;
        hays.push(h);
        assert(hays_view(hays@) =~= hays_view(prev).push(h@));
        i = i + 1;
        assert(searched_lines(lines_view(lines@)).subrange(0, i as int) =~= searched_lines(lines_view(lines@)).subrange(
            0,
            i - 1,
        ).push(h@));
    }
    assert(hays_view(hays@) =~= searched_lines(lines_view(lines@)));
    find_in(&hays, &needle, from, backwards)
}

} // verus!
