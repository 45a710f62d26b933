use vt_core::config::Model;
use vt_core::setup::screens::{Screen, Screens};
use vt_core::setup::{Action, Features, Input, Outcome};

fn menu() -> Screens {
    Screens::new(Model::Vt420, "0.6", Features::factory(Model::Vt420))
}

fn contains(haystack: &[u8], needle: &str) -> bool {
    let n = needle.as_bytes();
    haystack.windows(n.len()).any(|w| w == n)
}

#[test]
fn screens_actions_and_exit_are_reported() {
    let mut m = menu();
    m.input(Input::Down);
    for _ in 0..4 {
        m.input(Input::Right);
    }
    assert_eq!(m.input(Input::Enter), Outcome::Action(Action::Save));
    m.done();
    assert_eq!(m.message(), Some("Done"));
    assert_eq!(m.input(Input::SetUp), Outcome::Exit);
}

#[test]
fn setup_actions_and_exit_are_reported() {
    let mut m = menu();
    m.input(Input::Down);
    for _ in 0..4 {
        m.input(Input::Right);
    }
    assert_eq!(m.input(Input::Enter), Outcome::Action(Action::Save));
    m.done();
    assert_eq!(m.message(), Some("Done"));
    assert_eq!(m.input(Input::SetUp), Outcome::Exit);
}

fn enter_steps_a_feature_and_arrows_move(mut m: Screens) {
    m.input(Input::Right);
    assert_eq!(m.input(Input::Enter), Outcome::Redraw);
    assert_eq!(m.screen(), Screen::Display);
    // To Next Set-Up, To Directory, 80 Columns.
    m.input(Input::Right);
    m.input(Input::Right);
    m.input(Input::Enter);
    assert!(m.features().columns_132);
    assert!(contains(&m.render(), "132 Columns"));
    // Down keeps the cursor over the same part of the screen: from
    // 132 Columns to Dark Screen.
    m.input(Input::Down);
    m.input(Input::Enter);
    assert!(m.features().light_screen);
}

#[test]
fn screens_enter_steps_a_feature_and_arrows_move() {
    enter_steps_a_feature_and_arrows_move(menu());
}

#[test]
fn setup_enter_steps_a_feature_and_arrows_move() {
    enter_steps_a_feature_and_arrows_move(menu());
}

fn directory_lists_the_vt420_screens(m: Screens) {
    let out = m.render();
    assert!(contains(&out, "Set-Up Directory"));
    assert!(contains(&out, "VT420 V0.6"));
    for word in ["Global", "Display", "General", "Comm", "Printer", "Keyboard", "Tab"] {
        assert!(contains(&out, word), "{word}");
    }
    assert!(contains(&out, "Clear Display") && contains(&out, "Save"));
    assert!(contains(&out, "North American Keyboard"));
    assert!(contains(&out, "Screen Align"));
}

#[test]
fn screens_directory_lists_the_vt420_screens() {
    directory_lists_the_vt420_screens(menu());
}

#[test]
fn setup_directory_lists_the_vt420_screens() {
    directory_lists_the_vt420_screens(menu());
}

fn answerback_is_typed_on_the_communications_screen(mut m: Screens) {
    // Comm is the fourth screen of the Directory.
    for _ in 0..3 {
        m.input(Input::Right);
    }
    m.input(Input::Enter);
    assert_eq!(m.screen(), Screen::Communications);
    // Down to the answerback row, then right to Answerback.
    for _ in 0..3 {
        m.input(Input::Down);
    }
    m.input(Input::Right);
    m.input(Input::Enter);
    m.input(Input::Text("VMS1".into()));
    assert!(contains(&m.render(), "Answerback=VMS1_"));
    m.input(Input::Enter);
    assert_eq!(m.features().answerback, b"VMS1");
}

#[test]
fn screens_answerback_is_typed_on_the_communications_screen() {
    answerback_is_typed_on_the_communications_screen(menu());
}

#[test]
fn setup_answerback_is_typed_on_the_communications_screen() {
    answerback_is_typed_on_the_communications_screen(menu());
}

fn tab_ruler_toggles_stops(mut m: Screens) {
    for _ in 0..6 {
        m.input(Input::Right);
    }
    m.input(Input::Enter);
    assert_eq!(m.screen(), Screen::Tab);
    m.input(Input::Down);
    m.input(Input::Down);
    // The ruler cursor starts at index 8; back to index 3.
    for _ in 0..5 {
        m.input(Input::Left);
    }
    m.input(Input::Enter);
    assert!(m.features().tabs[3]);
    // Screen line 9 holds the stops ("   T    T"), line 10 the digits.
    let out = m.render();
    assert!(contains(&out, "\x1b[9;3H \x1b[m"));
    assert!(contains(&out, "\x1b[9;4H\x1b[7mT\x1b[m"));
    assert!(contains(&out, "\x1b[9;8H \x1b[m"));
    assert!(contains(&out, "\x1b[9;9HT\x1b[m"));
    assert!(contains(&out, "\x1b[10;1H1"));
    assert!(contains(&out, "\x1b[10;10H0"));
}

#[test]
fn screens_tab_ruler_toggles_stops() {
    tab_ruler_toggles_stops(menu());
}

#[test]
fn setup_tab_ruler_toggles_stops() {
    tab_ruler_toggles_stops(menu());
}

#[test]
fn screens_walk_in_a_ring() {
    assert_eq!(Screen::Directory.next(), Screen::Global);
    assert_eq!(Screen::Tab.next(), Screen::Global);
    assert_eq!(Screen::Printer.title(), "Printer Set-Up");
}

#[test]
fn set_up_key_leaves_and_clears_the_message() {
    let mut m = menu();
    assert_eq!(m.message(), None);
    m.done();
    assert_eq!(m.message(), Some("Done"));
    assert_eq!(m.input(Input::Up), Outcome::Redraw);
    assert_eq!(m.message(), None);
    assert_eq!(m.input(Input::SetUp), Outcome::Exit);
}

#[test]
fn set_features_replaces_what_is_shown() {
    let mut m = menu();
    let mut f = Features::factory(Model::Vt420);
    f.columns_132 = true;
    f.tabs = vt_core::setup::default_tabs(132);
    m.set_features(f.clone());
    assert_eq!(m.features(), &f);
}
