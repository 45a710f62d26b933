use vt_core::cell::Cell;
use vt_core::grid::{Line, LineSize};
use vt_core::selection::{copy_char, line_at, selection_text, word_at, Point, Selection};

fn line(text: &str, cols: usize, wrapped: bool) -> Line {
    let mut cells: Vec<Cell> = text.chars().map(|ch| Cell { ch, ..Cell::blank() }).collect();
    while cells.len() < cols {
        cells.push(Cell::blank());
    }
    Line { cells, size: LineSize::Single, wrapped }
}

fn p(row: usize, col: usize) -> Point {
    Point { row, col }
}

#[test]
fn double_click_selects_a_whole_vms_file_specification() {
    let t = vec![line("$ TYPE DKA0:[SYS0.SYSCOMMON]LOGIN.COM;1 (new)", 60, false)];
    let w = word_at(&t, p(0, 15));
    assert_eq!(w, Selection::new(p(0, 7), p(0, 38)));
    assert_eq!(selection_text(&t, &w), "DKA0:[SYS0.SYSCOMMON]LOGIN.COM;1");
    assert_eq!(word_at(&t, p(0, 41)), Selection::new(p(0, 41), p(0, 43)));
}

#[test]
fn double_click_on_a_blank_selects_one_position() {
    let t = vec![line("a (b)", 10, false)];
    assert_eq!(word_at(&t, p(0, 1)), Selection::new(p(0, 1), p(0, 1)));
    assert_eq!(word_at(&t, p(0, 2)), Selection::new(p(0, 2), p(0, 2)));
    assert_eq!(word_at(&t, p(0, 0)), Selection::new(p(0, 0), p(0, 0)));
}

#[test]
fn double_click_past_the_line_uses_the_last_column_and_line() {
    let t = vec![line("abc", 3, false), line("xy z", 4, false)];
    assert_eq!(word_at(&t, p(1, 99)), Selection::new(p(1, 3), p(1, 3)));
    assert_eq!(word_at(&t, p(5, 1)), Selection::new(p(5, 0), p(5, 1)));
}

#[test]
fn triple_click_selects_the_line() {
    let t = vec![line("abc", 10, false), line("def", 10, false)];
    assert_eq!(line_at(&t, 0), Selection::new(p(0, 0), p(0, 9)));
    assert_eq!(line_at(&t, 7), Selection::new(p(1, 0), p(1, 9)));
    let mut wide = line("ab", 10, false);
    wide.size = LineSize::DoubleWidth;
    assert_eq!(line_at(&vec![wide], 0), Selection::new(p(0, 0), p(0, 4)));
}

#[test]
fn copied_lines_drop_trailing_blanks_and_join_wrapped_lines() {
    let t = vec![line("first   ", 10, true), line("second", 10, false), line("third", 10, false)];
    let all = Selection::new(p(2, 2), p(0, 0));
    assert_eq!(selection_text(&t, &all), "firstsecond\nthi");
    let to_end = Selection::new(p(1, 3), p(2, 9));
    assert_eq!(selection_text(&t, &to_end), "ond\nthird");
    let middle = Selection::new(p(0, 1), p(0, 2));
    assert_eq!(selection_text(&t, &middle), "ir");
    let past = Selection::new(p(2, 0), p(9, 0));
    assert_eq!(selection_text(&t, &past), "third\n");
    assert_eq!(selection_text(&Vec::new(), &past), "");
}

#[test]
fn drawn_characters_copy_as_unicode() {
    assert_eq!(copy_char('\u{F7E1}'), '⎲');
    assert_eq!(copy_char('\u{F7E2}'), '⎳');
    assert_eq!(copy_char('\u{F7E7}'), '>');
    assert_eq!(copy_char('\u{A0}'), ' ');
    assert_eq!(copy_char(char::from_u32(0x10_0000 + 256 + 0x41).unwrap()), 'A');
    assert_eq!(copy_char(char::from_u32(0x10_0000 + 0x20).unwrap()), '?');
    assert_eq!(copy_char('é'), 'é');
}
