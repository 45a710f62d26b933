use vt_core::cell::Cell;
use vt_core::grid::{Line, LineSize};
use vt_core::history::{find_in, find_text, Found};

fn line(text: &str, cols: usize) -> Line {
    let mut cells: Vec<Cell> = text.chars().map(|ch| Cell { ch, ..Cell::blank() }).collect();
    while cells.len() < cols {
        cells.push(Cell::blank());
    }
    Line { cells, size: LineSize::Single, wrapped: false }
}

/// Two scrollback lines and a four-line page.
fn history() -> Vec<Line> {
    ["$ DIR", "LOGIN.COM", "login.old", "$ TYPE LOGIN.COM", "$ SET TERM", "$"]
        .iter()
        .map(|t| line(t, 80))
        .collect()
}

#[test]
fn search_goes_back_through_history_and_wraps() {
    let t = history();
    let hit = |line, col| Some(Found { line, col, len: 5 });
    let first = find_text(&t, "login", None, true);
    assert_eq!(first, hit(3, 7), "the newest match first");
    assert_eq!(find_text(&t, "login", Some((3, 7)), true), hit(2, 0));
    assert_eq!(find_text(&t, "LOGIN", Some((2, 0)), true), hit(1, 0));
    assert_eq!(find_text(&t, "login", Some((1, 0)), true), hit(3, 7), "wraps");
    assert_eq!(find_text(&t, "login", Some((1, 0)), false), hit(2, 0));
    assert_eq!(find_text(&t, "login", Some((3, 7)), false), hit(1, 0), "wraps forwards");
    assert_eq!(find_text(&t, "vms", None, true), None);
    assert_eq!(find_text(&t, "", None, true), None);
    let term = find_text(&t, "$ set term", None, false).unwrap();
    assert_eq!((term.line, term.col, term.len), (4, 0, 10));
}

#[test]
fn a_single_match_is_found_again() {
    let t = history();
    let only = find_text(&t, "TYPE", None, true).unwrap();
    assert_eq!(find_text(&t, "TYPE", Some((only.line, only.col)), true), Some(only));
}

#[test]
fn an_empty_history_finds_nothing() {
    assert_eq!(find_text(&Vec::new(), "x", None, false), None);
}

#[test]
fn search_starts_after_the_given_column() {
    let t = vec![line("ab ab ab", 8)];
    assert_eq!(find_text(&t, "ab", Some((0, 0)), false), Some(Found { line: 0, col: 3, len: 2 }));
    assert_eq!(find_text(&t, "ab", Some((0, 6)), false), Some(Found { line: 0, col: 0, len: 2 }));
    assert_eq!(find_text(&t, "ab", Some((0, 3)), true), Some(Found { line: 0, col: 0, len: 2 }));
    assert_eq!(find_text(&t, "ab", Some((9, 0)), true), Some(Found { line: 0, col: 6, len: 2 }));
}

#[test]
fn double_width_lines_are_searched_in_their_columns() {
    let mut wide = line("WIDE", 8);
    wide.size = LineSize::DoubleWidth;
    let t = vec![wide];
    assert_eq!(find_text(&t, "wide", None, false), Some(Found { line: 0, col: 0, len: 4 }));
    let mut narrow = line("abcdWIDE", 8);
    narrow.size = LineSize::DoubleWidth;
    assert_eq!(find_text(&vec![narrow], "wide", None, false), None);
}

#[test]
fn folded_search_compares_lower_case() {
    let hays = vec![vec!['x', 'a', 'b'], vec!['a', 'b']];
    assert_eq!(find_in(&hays, &vec!['a', 'b'], None, false), Some(Found { line: 0, col: 1, len: 2 }));
    assert_eq!(find_in(&hays, &vec!['a', 'b'], None, true), Some(Found { line: 1, col: 0, len: 2 }));
    assert_eq!(find_in(&hays, &vec!['A', 'B'], None, true), None);
    assert_eq!(find_text(&vec![line("ÄRGER", 5)], "ärger", None, false), Some(Found { line: 0, col: 0, len: 5 }));
}
