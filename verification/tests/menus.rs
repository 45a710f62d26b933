use vt_core::charset::Nrc;
use vt_core::config::Model;
use vt_core::setup::menus::{menu_items, Menu, Menus};
use vt_core::setup::{Action, Features, Input, Outcome, Parity, Scroll, SetupMenu};

fn menus() -> Menus {
    Menus::new(Model::Vt520, "0.8", Features::factory(Model::Vt520))
}

fn contains(haystack: &[u8], needle: &str) -> bool {
    let n = needle.as_bytes();
    haystack.windows(n.len()).any(|w| w == n)
}

fn find(m: &Menus, label: &str) -> usize {
    let path = m.path();
    let (menu, _) = path[path.len() - 1];
    menu_items(menu, m.features(), Model::Vt520, 1)
        .iter()
        .position(|i| i.label == label)
        .unwrap_or_else(|| panic!("no {label}"))
}

/// Moves the cursor to `label` in the active menu and presses Enter.
fn pick_item(m: &mut Menus, label: &str) -> Outcome {
    let at = find(m, label);
    for _ in 0..40 {
        let path = m.path();
        if path[path.len() - 1].1 == at {
            break;
        }
        m.input(Input::Down);
    }
    m.input(Input::Enter)
}

#[test]
fn arrows_walk_the_menus_and_enter_chooses() {
    let mut m = menus();
    // Down skips nothing on the main menu until the separator.
    for _ in 0..2 {
        m.input(Input::Down);
    }
    assert_eq!(m.path(), [(Menu::Main, 2)]);
    m.input(Input::Right);
    assert_eq!(m.path()[1].0, Menu::Display);
    pick_item(&mut m, "Columns per page");
    assert_eq!(m.path()[2], (Menu::Columns, 0), "cursor on the current setting");
    pick_item(&mut m, "132 columns");
    assert!(m.features().columns_132);
    assert_eq!(m.features().tabs.len(), 132);
    // Check boxes share this menu, so it stays open.
    assert_eq!(m.path().len(), 3);
    m.input(Input::Left);
    pick_item(&mut m, "Scrolling mode");
    assert_eq!(m.path()[2], (Menu::Scrolling, 2), "jump by default");
    pick_item(&mut m, "Fast smooth");
    assert_eq!(m.features().scroll, Scroll::Smooth4);
    assert_eq!(m.path().len(), 2, "a radio choice closes its menu");
    let wrapped = m.features().autowrap;
    pick_item(&mut m, "Auto wrap");
    assert_eq!(m.features().autowrap, !wrapped, "a toggle flips its feature");
}

#[test]
fn dimmed_items_are_skipped() {
    let mut m = menus();
    m.input(Input::Right);
    m.input(Input::Down);
    m.input(Input::Down);
    m.input(Input::Down);
    m.input(Input::Down);
    // Past the separator and the dimmed desktop features, back to the top.
    assert_eq!(m.path()[1], (Menu::Actions, 0));
    m.input(Input::Up);
    assert_eq!(m.path()[1], (Menu::Actions, 3));
}

#[test]
fn menus_actions_and_exit_are_reported() {
    let mut m = menus();
    m.input(Input::Right);
    assert_eq!(pick_item(&mut m, "Restore factory defaults"), Outcome::Action(Action::Default));
    m.input(Input::Left);
    assert_eq!(pick_item(&mut m, "Save settings"), Outcome::Action(Action::Save));
    m.done();
    assert!(m.summary_line().starts_with(" Done"));
    m.input(Input::Up);
    assert!(m.summary_line().contains("9600N81"));
    assert_eq!(pick_item(&mut m, "Exit Set-Up"), Outcome::Exit);
}

#[test]
fn summary_line_follows_the_communication_settings() {
    let mut m = menus();
    let mut f = m.features().clone();
    f.transmit_speed = 19200;
    f.parity = Parity::Even;
    f.seven_bit_data = true;
    f.keyboard_language = Some(Nrc::German);
    m.set_features(f);
    m.set_session(2);
    let line = m.summary_line();
    assert_eq!(line.chars().count(), 80);
    assert!(line.starts_with(" S2=comm1     19200E71"), "{line}");
    assert!(line.contains("DEC Multinational") && line.contains("German"), "{line}");
    assert!(line.contains("VT520") && line.trim_end().ends_with("V0.8"));
}

#[test]
fn main_menu_shows_the_actions_submenu() {
    let m = menus();
    let out = m.render();
    for text in ["Set-Up", "Actions", "\u{25b6}", "Clear display", "\u{2612} On-line", "Exit Set-Up", "\u{250c}", "\u{2514}"] {
        assert!(contains(&out, text), "{text}");
    }
}

#[test]
fn the_answerback_dialog_takes_a_message() {
    let mut m = menus();
    for _ in 0..7 {
        m.input(Input::Down);
    }
    m.input(Input::Right);
    assert_eq!(m.path()[1].0, Menu::Communication);
    pick_item(&mut m, "Answerback message...");
    m.input(Input::Text("VMS".into()));
    assert!(contains(&m.render(), "Enter answerback message"));
    assert!(contains(&m.render(), "VMS"));
    m.input(Input::Down);
    assert_eq!(m.input(Input::Enter), Outcome::Redraw);
    assert_eq!(m.features().answerback, b"VMS");
}

#[test]
fn the_tabs_dialog_toggles_stops() {
    let mut m = menus();
    assert_eq!(pick_item(&mut m, "Tabs..."), Outcome::Redraw);
    assert!(contains(&m.render(), "Tab Set-Up"));
    m.input(Input::Right);
    m.input(Input::Right);
    m.input(Input::Enter);
    assert!(!m.features().tabs[2], "not applied before OK");
    m.input(Input::Down);
    m.input(Input::Down);
    assert_eq!(m.input(Input::Enter), Outcome::Redraw);
    assert!(m.features().tabs[2]);
}

#[test]
fn setup_menu_picks_the_style_by_model() {
    let f = Features::factory(Model::Vt520);
    let m = SetupMenu::new(Model::Vt520, "0.8", f);
    assert!(m.status_line().is_some());
    let f = Features::factory(Model::Vt420);
    let mut s = SetupMenu::new(Model::Vt420, "0.6", f.clone());
    assert!(s.status_line().is_none());
    assert_eq!(s.features(), &f);
    assert_eq!(s.message(), None);
    assert!(!s.clear_display_on_exit());
    s.done();
    assert_eq!(s.message(), Some("Done"));
    assert_eq!(s.input(Input::SetUp), Outcome::Exit);
    assert!(contains(&s.render(), "Set-Up Directory"));
}

#[test]
fn set_up_opens_with_any_features() {
    let mut f = Features::factory(Model::Vt420);
    f.page_length = 0;
    f.printer_session = 255;
    let s = SetupMenu::new(Model::Vt420, "0.6", f.clone());
    assert_eq!(s.features(), &f);
    assert_eq!(s.message(), None);
    assert!(!s.clear_display_on_exit());
}
