use vt_core::keyboard::{Key, KeyMods};
use vt_core::keyprog::{is_alphanumeric, key_at, station_of, Direction, KeyPrograms, MEMORY};

#[test]
fn stations_round_trip() {
    assert_eq!(station_of(Key::Find), Some(75));
    assert_eq!(station_of(Key::UserDefined(6)), Some(117));
    assert_eq!(key_at(126), Some(Key::Function(15)));
    assert!(is_alphanumeric(31) && !is_alphanumeric(75));
}

#[test]
fn decpfk_programs_and_reports() {
    let mut p = KeyPrograms::default();
    p.program_function_keys(b"117/1/100/48656C6C6F/2;75/5/1//0");
    let f6 = p.function(117, KeyMods::none()).unwrap();
    assert_eq!((f6.function, f6.uds.as_slice(), f6.direction), (100, &b"Hello"[..], Direction::Remote));
    let ctrl = KeyMods { ctrl: true, ..KeyMods::none() };
    assert_eq!(p.function(75, ctrl).unwrap().function, 1);
    assert_eq!(p.report_function(117, 1, b""), "117/1/100/48656C6C6F/2");
    assert_eq!(p.report_function(118, 0, b"\x1b[18~"), "118/1//1B5B31387E/0");
    assert_eq!(p.free(), MEMORY - 9 - 4);
}

#[test]
fn break_cannot_be_programmed_and_bad_data_stops() {
    let mut p = KeyPrograms::default();
    p.program_function_keys(b"116/1/0//0;117/1/100/GG/0;118/1/0//0");
    assert!(p.function(116, KeyMods::none()).is_none());
    assert!(p.function(118, KeyMods::none()).is_none(), "processing stopped at the bad hex");
}

#[test]
fn decpak_codes_and_alt_function() {
    let mut p = KeyPrograms::default();
    p.program_alphanumeric_keys(b"31/61 41 . . . . 01/100/1B4F50/0");
    let a = p.alphanumeric(31).unwrap();
    assert_eq!(a.codes[0].as_deref(), Some(&b"a"[..]));
    assert_eq!(a.codes[2], None);
    assert_eq!(a.codes[6].as_deref(), Some(&b"\x01"[..]));
    assert_eq!(a.alt.as_ref().unwrap().uds, b"\x1bOP");
    assert_eq!(p.report_alphanumeric(31), "31/61 41 . . . . 01/100/1B4F50/0");
    assert_eq!(p.report_alphanumeric(32), "32/. . . . . . .");
}

#[test]
fn deckd_and_decpka() {
    let mut p = KeyPrograms::default();
    p.program_function_keys(b"117/1/0//0");
    p.copy_key_defaults(b"118/117");
    assert!(p.function(117, KeyMods::none()).is_none(), "copy replaces the program");
    assert_eq!(p.default_source(117), 118);
    p.copy_key_defaults(b"117/117");
    assert_eq!(p.default_source(117), 117);
    p.program_function_keys(b"117/1/0//0");
    p.key_action(1);
    assert!(!p.program_function_keys(b"118/1/0//0"));
    p.key_action(2);
    assert!(p.function(117, KeyMods::none()).is_some(), "restore is refused while locked");
}

#[test]
fn memory_is_limited() {
    let mut p = KeyPrograms::default();
    let long = "41".repeat(255);
    for station in 117..=121 {
        p.program_function_keys(format!("{station}/1/100/{long}/0").as_bytes());
    }
    assert!(p.used() <= MEMORY);
    assert!(p.function(121, KeyMods::none()).is_none());
}

#[test]
fn every_station_names_its_key_again() {
    for station in 0u8..=255 {
        if let Some(key) = key_at(station) {
            assert_eq!(station_of(key), Some(station));
        }
    }
}

#[test]
fn undelimited_codes_and_the_dot() {
    let mut p = KeyPrograms::default();
    assert!(p.program_alphanumeric_keys(b"31/61.41"));
    let a = p.alphanumeric(31).unwrap();
    assert_eq!(a.codes[0].as_deref(), Some(&b"a"[..]));
    assert_eq!(a.codes[1], None);
    assert_eq!(a.codes[2].as_deref(), Some(&b"A"[..]));
    assert!(a.alt.is_none());
    assert_eq!(p.report_alphanumeric(31), "31/61 . 41 . . . .");
}

#[test]
fn too_many_codes_stop_decpak() {
    let mut p = KeyPrograms::default();
    p.program_alphanumeric_keys(b"31/01 02 03 04 05 06 07 08");
    assert!(p.alphanumeric(31).is_none());
}

#[test]
fn restore_clears_every_definition() {
    let mut p = KeyPrograms::default();
    p.program_function_keys(b"117/1/0//0");
    p.program_alphanumeric_keys(b"31/61");
    p.key_action(2);
    assert!(p.function(117, KeyMods::none()).is_none());
    assert!(p.alphanumeric(31).is_none());
    assert_eq!(p.used(), 0);
}
