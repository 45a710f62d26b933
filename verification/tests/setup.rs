use vt_core::charset::Nrc;
use vt_core::config::Model;
use vt_core::setup::{default_tabs, Features, Parity, Scroll, TerminalMode};
use vt_core::terminal::LocalKeyAction;

#[test]
fn setup_features_survive_saving() {
    let mut f = Features::factory(Model::Vt525);
    f.columns_132 = true;
    f.tabs = default_tabs(132);
    f.tabs[4] = true;
    f.answerback = b"VMS\r".to_vec();
    f.terminal_mode = TerminalMode::Level { level: 4, eight_bit: true };
    f.keyboard_language = Some(Nrc::German);
    f.national = true;
    f.page_length = 36;
    f.local_keys[2] = LocalKeyAction::Disabled;
    let back = Features::from_text(Model::Vt525, &f.to_text());
    assert_eq!(back, f);
}

#[test]
fn screens_features_survive_saving() {
    let mut f = Features::factory(Model::Vt525);
    f.columns_132 = true;
    f.tabs = default_tabs(132);
    f.tabs[4] = true;
    f.answerback = b"VMS\r".to_vec();
    f.terminal_mode = TerminalMode::Level { level: 4, eight_bit: true };
    f.keyboard_language = Some(Nrc::German);
    f.national = true;
    f.page_length = 36;
    f.local_keys[2] = LocalKeyAction::Disabled;
    let back = Features::from_text(Model::Vt525, &f.to_text());
    assert_eq!(back, f);
}

#[test]
fn factory_settings_by_model() {
    let vt420 = Features::factory(Model::Vt420);
    assert_eq!(vt420.scroll, Scroll::Smooth2);
    assert_eq!(vt420.terminal_mode, TerminalMode::Level { level: 4, eight_bit: false });
    let vt100 = Features::factory(Model::Vt100);
    assert_eq!(vt100.terminal_mode, TerminalMode::Vt100);
    assert_eq!(vt100.tabs.len(), 80);
    assert!(vt100.tabs[8] && !vt100.tabs[7]);
}

#[test]
fn unknown_names_and_bad_values_are_ignored() {
    let f = Features::from_text(Model::Vt420, "nonsense=1\npage-length=99\nno equals sign\nparity=odd\r\n  autowrap =1");
    let factory = Features::factory(Model::Vt420);
    assert_eq!(f.page_length, factory.page_length);
    assert_eq!(f.parity, Parity::Odd);
    assert!(f.autowrap, "the name is trimmed");
}

#[test]
fn national_mode_needs_a_national_keyboard() {
    let f = Features::from_text(Model::Vt420, "national=1\n");
    assert!(!f.national);
    let g = Features::from_text(Model::Vt420, "keyboard=6\nnational=1\n");
    assert!(g.national);
    assert_eq!(g.keyboard_language, Some(Nrc::German));
}

#[test]
fn older_data_format_line_sets_word_size_and_parity() {
    let f = Features::from_text(Model::Vt420, "data-format=4");
    assert!(f.seven_bit_data);
    assert_eq!(f.parity, Parity::Odd);
}

#[test]
fn saved_text_starts_with_the_global_settings() {
    let text = Features::factory(Model::Vt220).to_text();
    assert!(text.starts_with("on-line=1\ncrt-saver=1\n"));
    assert!(text.ends_with("tabs=9,17,25,33,41,49,57,65,73\n"));
    assert_eq!(Parity::Even.letter(), 'E');
}

#[test]
fn bad_values_leave_the_factory_settings() {
    let factory = Features::factory(Model::Vt420);
    let text = "on-line=yes\nxoff=32\nbogus=1\ncolumns=100\nscroll=fast\nzero-style=9\nkeyboard=99\nreceive-speed=7\nanswerback=zz\nkeyclick=loud";
    assert_eq!(Features::from_text(Model::Vt420, text), factory);
    let f = Features::from_text(Model::Vt420, "on-line=0\nxoff=none\nreceive-speed=transmit\nkeyclick=off");
    assert!(!f.on_line);
    assert_eq!(f.xoff, None);
    assert_eq!(f.receive_speed, None);
    assert_eq!(f.keyclick, vt_core::setup::Volume::Off);
}
