use vt_core::charset::{Charset, Nrc, Vt500Set};
use vt_core::config::Model;
use vt_core::keyboard::Key;
use vt_core::keyprog::{key_at, station_of};

#[test]
fn national_designators_select_their_sets() {
    assert_eq!(Charset::national(None, b'7'), Some(Nrc::Swedish));
    assert_eq!(Charset::national(Some(b'%'), b'6'), Some(Nrc::Portuguese));
    for n in [Nrc::British, Nrc::German, Nrc::Portuguese, Nrc::Swiss, Nrc::Dutch] {
        let d = Charset::National(n).designator().as_bytes();
        let back = if d.len() == 1 {
            Charset::national(None, d[0])
        } else {
            Charset::national(Some(d[0]), d[1])
        };
        assert_eq!(back, Some(n));
    }
}

#[test]
fn vt500_designators_select_their_sets() {
    for s in [Vt500Set::DecGreek, Vt500Set::IsoLatin2, Vt500Set::NrcRussian, Vt500Set::IsoLatin5] {
        let d = s.designator().as_bytes();
        assert_eq!(d.len(), if s.is_96() { 1 } else { 2 });
        let inter = if d.len() == 2 { Some(d[0]) } else { None };
        assert_eq!(Vt500Set::from_designator(s.is_96(), inter, d[d.len() - 1]), Some(s));
        assert!(!(s.is_96() && s.is_national()));
    }
}

#[test]
fn national_encoding_is_printable_and_shows_again() {
    assert_eq!(Nrc::German.encode('ß'), Some(b'~'));
    assert_eq!(Nrc::German.encode('a'), Some(b'a'));
    assert_eq!(Nrc::German.encode('['), None);
    assert_eq!(Nrc::British.encode('£'), Some(b'#'));
    for ch in ['ß', 'Ä', 'a', ' ', '~', '£'] {
        if let Some(b) = Nrc::German.encode(ch) {
            assert!((0x20..=0x7E).contains(&b));
            assert_eq!(Charset::National(Nrc::German).map(b), Some(ch));
        }
    }
}

#[test]
fn model_names_read_back_in_either_case() {
    for m in [Model::Vt100, Model::Vt220, Model::Vt420, Model::Vt525] {
        assert_eq!(Model::from_name(m.term_name_exact()), Some(m));
        assert_eq!(Model::from_name(&m.term_name_exact().to_uppercase()), Some(m));
    }
    assert_eq!(Model::from_name("vt999"), None);
}

#[test]
fn station_table_reads_both_ways() {
    assert_eq!(station_of(Key::Find), Some(75));
    assert_eq!(station_of(Key::UserDefined(6)), Some(117));
    assert_eq!(key_at(126), Some(Key::Function(15)));
    for s in [15u8, 43, 75, 99, 112, 126, 133] {
        let k = key_at(s).unwrap();
        assert_eq!(station_of(k), Some(s));
    }
    for n in 1..=20u8 {
        assert_eq!(station_of(Key::UserDefined(n)), station_of(Key::Function(n)));
    }
}
