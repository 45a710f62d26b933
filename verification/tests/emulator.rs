use vt_core::charset::Charset;
use vt_core::config::{Config, Model, StatusDisplay, Supplemental};
use vt_core::emulator::{pages_for_length, power_up};
use vt_core::setup::Features;

#[test]
fn a_vt420_powers_up_with_six_pages_of_24_lines() {
    let s = power_up(Config::default());
    assert_eq!((s.grid.rows(), s.grid.cols()), (24, 80));
    assert_eq!(s.pages.len(), 6);
    assert_eq!(s.pages[0].rows(), 0);
    assert_eq!((s.pages[5].rows(), s.pages[5].cols()), (24, 80));
    assert_eq!((s.top, s.bottom, s.left, s.right), (0, 23, 0, 79));
    assert_eq!((s.cursor.row, s.cursor.col, s.cursor.pending_wrap), (0, 0, false));
    assert_eq!(s.screen_lines, 24);
    assert!(s.tabs[8] && s.tabs[16] && !s.tabs[0] && !s.tabs[7]);
    assert_eq!(s.tabs.len(), 80);
    assert_eq!(s.level, 4);
    assert!(s.modes.smooth_scroll && s.modes.ansi && !s.modes.autowrap);
    assert_eq!(s.status.kind, StatusDisplay::Indicator);
    assert_eq!(s.charsets.g, [Charset::Ascii, Charset::Ascii, Charset::DecSupplemental, Charset::DecSupplemental]);
    assert_eq!(s.status_line.cells.len(), 80);
    assert_eq!(s.macros.len(), 64);
    assert_eq!(s.sessions, 1);
    assert!(!s.udk.locked);
    assert_eq!(s.stored, Features::factory(Model::Vt420));
    assert!(s.scrollback.is_empty());
}

#[test]
fn a_vt100_has_one_page_and_ascii_sets() {
    let s = power_up(Config {
        model: Model::Vt100,
        rows: 0,
        cols: 1,
        national_mode: true,
        status_display: StatusDisplay::HostWritable,
        ..Config::default()
    });
    assert_eq!((s.grid.rows(), s.grid.cols()), (1, 2));
    assert_eq!(s.pages.len(), 1);
    assert_eq!(s.charsets.g, [Charset::Ascii; 4]);
    assert!(!s.modes.national && !s.modes.smooth_scroll);
    assert_eq!(s.status.kind, StatusDisplay::NoDisplay);
    assert_eq!(s.level, 1);
}

#[test]
fn set_up_choices_carry_into_the_power_up_state() {
    let s = power_up(Config {
        model: Model::Vt525,
        rows: 36,
        autowrap: true,
        new_line: true,
        udk_locked: true,
        supplemental: Supplemental::IsoLatin1,
        ..Config::default()
    });
    assert_eq!(s.pages.len(), 2);
    assert!(s.modes.autowrap && s.modes.new_line && !s.modes.smooth_scroll);
    assert!(s.udk.locked);
    assert_eq!(s.upss, Charset::IsoLatin1);
    assert_eq!(s.charsets.g[2], Charset::IsoLatin1);
    assert_eq!(s.config.rows, 36);
}

#[test]
fn pages_follow_the_page_length() {
    assert_eq!(pages_for_length(Model::Vt420, 24), 6);
    assert_eq!(pages_for_length(Model::Vt420, 25), 5);
    assert_eq!(pages_for_length(Model::Vt420, 36), 4);
    assert_eq!(pages_for_length(Model::Vt420, 48), 3);
    assert_eq!(pages_for_length(Model::Vt420, 72), 2);
    assert_eq!(pages_for_length(Model::Vt420, 144), 1);
    assert_eq!(pages_for_length(Model::Vt525, 24), 3);
    assert_eq!(pages_for_length(Model::Vt525, 25), 2);
    assert_eq!(pages_for_length(Model::Vt525, 48), 1);
}

fn page() -> vt_core::emulator::EmulatorState {
    power_up(Config::default())
}

#[test]
fn goto_holds_the_cursor_to_the_page() {
    let mut s = page();
    s.goto(100, 200);
    assert_eq!((s.cursor.row, s.cursor.col), (23, 79));
    s.cup(5, 10);
    assert_eq!((s.cursor.row, s.cursor.col), (4, 9));
    s.cup(0, 0);
    assert_eq!((s.cursor.row, s.cursor.col), (0, 0));
}

#[test]
fn origin_mode_addresses_from_the_margins() {
    let mut s = page();
    s.top = 2;
    s.bottom = 10;
    s.left = 3;
    s.right = 20;
    s.modes.origin = true;
    s.cup(1, 1);
    assert_eq!((s.cursor.row, s.cursor.col), (2, 3));
    s.cup(50, 50);
    assert_eq!((s.cursor.row, s.cursor.col), (10, 20));
    s.reset_margins();
    assert_eq!((s.top, s.bottom, s.left, s.right), (0, 23, 0, 79));
}

#[test]
fn cursor_moves_stop_at_the_margins_from_inside() {
    let mut s = page();
    s.top = 2;
    s.bottom = 10;
    s.left = 3;
    s.right = 20;
    s.goto(4, 9);
    s.cuu(10);
    assert_eq!(s.cursor.row, 2);
    s.cud(100);
    assert_eq!(s.cursor.row, 10);
    s.cuf(100);
    assert_eq!(s.cursor.col, 20);
    s.cub(100);
    assert_eq!(s.cursor.col, 3);
    s.goto(1, 1);
    s.cuu(5);
    assert_eq!(s.cursor.row, 0);
    s.cub(5);
    assert_eq!(s.cursor.col, 0);
    s.goto(12, 25);
    s.cud(100);
    assert_eq!(s.cursor.row, 23);
    s.cuf(100);
    assert_eq!(s.cursor.col, 79);
}

#[test]
fn carriage_return_goes_to_the_left_margin() {
    let mut s = page();
    s.left = 3;
    s.right = 20;
    s.goto(0, 9);
    s.carriage_return();
    assert_eq!(s.cursor.col, 3);
    s.goto(0, 1);
    s.carriage_return();
    assert_eq!(s.cursor.col, 0);
}

#[test]
fn tabs_move_between_stops() {
    let mut s = page();
    s.tab(1);
    assert_eq!(s.cursor.col, 8);
    s.goto(0, 0);
    s.tab(3);
    assert_eq!(s.cursor.col, 24);
    s.back_tab(1);
    assert_eq!(s.cursor.col, 16);
    s.back_tab(5);
    assert_eq!(s.cursor.col, 0);
    s.right = 20;
    s.goto(0, 17);
    s.tab(1);
    assert_eq!(s.cursor.col, 20);
    s.goto(0, 70);
    s.tab(5);
    assert_eq!(s.cursor.col, 79);
}

#[test]
fn moving_to_another_row_ends_the_logged_line() {
    let mut s = page();
    s.capture = Some(vec!['a']);
    s.goto(0, 5);
    assert_eq!(s.capture, Some(vec!['a']));
    s.goto(3, 0);
    assert_eq!(s.capture, Some(vec!['a', '\n']));
    s.goto(4, 0);
    assert_eq!(s.capture, Some(vec!['a', '\n']));
}

fn row_text(s: &vt_core::emulator::EmulatorState, row: usize, n: usize) -> String {
    s.grid.line(row).cells[..n].iter().map(|c| c.ch).collect()
}

fn write(s: &mut vt_core::emulator::EmulatorState, row: usize, text: &str) {
    for (i, ch) in text.chars().enumerate() {
        s.grid.line_mut(row).cells[i].ch = ch;
    }
}

#[test]
fn restore_puts_back_what_save_saved() {
    let mut s = page();
    s.goto(5, 7);
    s.modes.origin = true;
    s.cursor.attrs.flags = vt_core::cell::Flags::bold();
    s.save_cursor();
    s.cup(1, 1);
    s.modes.origin = false;
    s.cursor.attrs = vt_core::cell::Attrs::plain();
    s.restore_cursor();
    assert_eq!((s.cursor.row, s.cursor.col), (5, 7));
    assert!(s.modes.origin);
    assert_eq!(s.cursor.attrs.flags, vt_core::cell::Flags::bold());
}

#[test]
fn restore_with_nothing_saved_homes_the_cursor() {
    let mut s = page();
    s.goto(5, 7);
    s.modes.origin = true;
    s.restore_cursor();
    assert_eq!((s.cursor.row, s.cursor.col), (0, 0));
    assert!(!s.modes.origin);
}

#[test]
fn editing_characters_on_the_cursor_line() {
    let mut s = page();
    write(&mut s, 0, "abcdef");
    s.goto(0, 1);
    s.insert_chars(2, vt_core::cell::Cell::blank());
    assert_eq!(row_text(&s, 0, 8), "a  bcdef");
    s.delete_chars(3, vt_core::cell::Cell::blank());
    assert_eq!(row_text(&s, 0, 8), "acdef   ");
    s.erase_chars(2, vt_core::cell::Cell::blank());
    assert_eq!(row_text(&s, 0, 8), "a  ef   ");
    s.left = 10;
    s.right = 20;
    s.goto(0, 2);
    s.insert_chars(2, vt_core::cell::Cell::blank());
    assert_eq!(row_text(&s, 0, 8), "a  ef   ");
}

#[test]
fn inserting_and_deleting_lines_within_the_margins() {
    let mut s = page();
    for (row, text) in ["one", "two", "three", "four"].iter().enumerate() {
        write(&mut s, row, text);
    }
    s.bottom = 3;
    s.goto(1, 5);
    s.insert_lines(1, vt_core::cell::Cell::blank());
    assert_eq!(row_text(&s, 0, 5), "one  ");
    assert_eq!(row_text(&s, 1, 5), "     ");
    assert_eq!(row_text(&s, 2, 5), "two  ");
    assert_eq!(row_text(&s, 3, 5), "three");
    assert_eq!(row_text(&s, 4, 5), "     ");
    assert_eq!((s.cursor.row, s.cursor.col), (1, 0));
    s.delete_lines(2, vt_core::cell::Cell::blank());
    assert_eq!(row_text(&s, 1, 5), "three");
    assert_eq!(row_text(&s, 2, 5), "     ");
    assert_eq!(row_text(&s, 3, 5), "     ");
    s.goto(5, 0);
    s.delete_lines(1, vt_core::cell::Cell::blank());
    assert_eq!(row_text(&s, 1, 5), "three");
}
