use vt_core::cell::Cell;
use vt_core::grid::{Grid, Line, Region};

fn line(text: &str) -> Line {
    let mut l = Line::new(text.len(), Cell::blank());
    for (cell, ch) in l.cells_mut().iter_mut().zip(text.chars()) {
        cell.ch = ch;
    }
    l
}

fn text(l: &Line) -> String {
    l.cells().iter().map(|c| c.ch).collect()
}

#[test]
fn insert_and_delete_within_margin() {
    let mut l = line("abcdefgh");
    l.insert(2, 5, 2, Cell::blank());
    assert_eq!(text(&l), "ab  cdgh");
    let mut l = line("abcdefgh");
    l.delete(2, 5, 1, Cell::blank());
    assert_eq!(text(&l), "abdef gh");
    let mut l = line("abcdefgh");
    l.delete(2, 7, 99, Cell::blank());
    assert_eq!(text(&l), "ab      ");
}

#[test]
fn partial_width_scroll() {
    let mut g = Grid::new(3, 4);
    for (r, t) in ["abcd", "efgh", "ijkl"].iter().enumerate() {
        *g.line_mut(r) = line(t);
    }
    let region = Region { top: 0, bottom: 2, left: 1, right: 2 };
    assert!(g.scroll_up(region, 1, Cell::blank()).is_empty());
    let rows: Vec<String> = g.lines().iter().map(text).collect();
    assert_eq!(rows, ["afgd", "ejkh", "i  l"]);
    g.scroll_down(region, 1, Cell::blank());
    let rows: Vec<String> = g.lines().iter().map(text).collect();
    assert_eq!(rows, ["a  d", "efgh", "ijkl"]);
}

#[test]
fn full_width_scroll_hands_back_the_top_line() {
    let mut g = Grid::new(3, 4);
    for (r, t) in ["abcd", "efgh", "ijkl"].iter().enumerate() {
        *g.line_mut(r) = line(t);
    }
    let region = Region { top: 0, bottom: 2, left: 0, right: 3 };
    let taken = g.scroll_up(region, 1, Cell::blank());
    assert_eq!(taken.len(), 1);
    assert_eq!(text(&taken[0]), "abcd");
    let rows: Vec<String> = g.lines().iter().map(text).collect();
    assert_eq!(rows, ["efgh", "ijkl", "    "]);
}

#[test]
fn resize_keeps_the_top_left() {
    let mut g = Grid::new(2, 4);
    *g.line_mut(0) = line("abcd");
    g.resize(3, 2);
    assert_eq!(g.rows(), 3);
    assert_eq!(g.cols(), 2);
    assert_eq!(text(g.line(0)), "ab");
}
