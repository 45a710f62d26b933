use vt_core::cell::{Cell, Flags};
use vt_core::config::{Config, Model};
use vt_core::modes::Modes;
use vt_core::selection::{is_word_char, Point, Selection};
use vt_core::setup::{Features, Parity, Volume};
use vt_core::terminal::{
    flow_code, flow_of, modem_speed_of, parity_code, speed_code, speed_of, volume_code, volume_of, CursorStyle,
};

#[test]
fn mode_bits_read_back() {
    let m = Modes::power_up(true, false, true);
    let back = Modes::from_bits(m.to_bits(), Modes::power_up(false, true, false));
    assert_eq!(back, m);
}

#[test]
fn flags_union_and_membership() {
    let f = Flags::bold() | Flags::blink();
    assert!(f.contains(Flags::bold()) && f.contains(Flags::blink()) && !f.contains(Flags::reverse()));
    assert_eq!(Cell::default(), Cell::blank());
}

#[test]
fn selections_order_their_ends() {
    let s = Selection::new(Point { row: 3, col: 5 }, Point { row: 1, col: 9 });
    assert_eq!(s.ordered(), (Point { row: 1, col: 9 }, Point { row: 3, col: 5 }));
    assert!(s.contains(2, 0));
    assert!(!s.contains(1, 8));
    assert!(s.contains(3, 5));
    assert!(is_word_char(':') && is_word_char('[') && !is_word_char(' ') && !is_word_char('"'));
}

#[test]
fn volume_and_speed_codes() {
    for v in [Volume::Off, Volume::Low, Volume::High] {
        assert_eq!(volume_of(&volume_code(v).to_string()), v);
    }
    assert_eq!(volume_of("0"), Volume::High);
    assert_eq!(volume_of("x"), Volume::High);
    assert_eq!(speed_of(speed_code(19200)), 19200);
    assert_eq!(speed_code(12345), 6);
    assert_eq!(speed_of(0), 9600);
    assert_eq!(modem_speed_of(0), None);
    assert_eq!(modem_speed_of(11), Some(115200));
    assert_eq!(parity_code(Parity::Space), 7);
    for flow in 0..=3 {
        assert_eq!(flow_of(flow_code(flow)), flow);
    }
}

#[test]
fn cursor_styles() {
    assert!(CursorStyle::default().is_block() && CursorStyle::default().blinks());
    assert!(!CursorStyle::SteadyUnderline.is_block() && !CursorStyle::SteadyUnderline.blinks());
}

#[test]
fn model_names_and_saved_features() {
    assert_eq!(Model::Vt420.setup_name(), "VT420");
    assert_eq!(Model::from_name("VT525"), Some(Model::Vt525));
    let mut c = Config::default();
    let mut f = Features::factory(Model::Vt420);
    f.autowrap = true;
    f.answerback = b"hi".to_vec();
    c.set_saved_features(f.clone());
    assert!(c.autowrap);
    assert_eq!(c.answerback, b"hi");
    assert_eq!(c.setup, Some(f));
}
