use vt_core::udk::{key_number, UserKeys};

#[test]
fn loads_and_clears() {
    let mut k = UserKeys::default();
    assert!(k.load(true, b"17/4449520D;34/5052494E54"));
    assert_eq!(k.get(6), Some(&b"DIR\r"[..]));
    assert_eq!(k.get(20), Some(&b"PRINT"[..]));
    k.load(false, b"18/41");
    assert_eq!(k.get(6), Some(&b"DIR\r"[..]), "Pc=1 keeps other keys");
    k.load(true, b"18/42");
    assert_eq!(k.get(6), None, "Pc=0 clears all keys first");
    assert_eq!(k.get(7), Some(&b"B"[..]));
}

#[test]
fn malformed_definition_stops_loading() {
    let mut k = UserKeys::default();
    k.load(true, b"17/41;18/4G;19/43");
    assert_eq!(k.get(6), Some(&b"A"[..]));
    assert_eq!(k.get(7), None);
    assert_eq!(k.get(8), None);
}

#[test]
fn locked_keys_ignore_host() {
    let mut k = UserKeys::new(true);
    assert!(!k.load(true, b"17/41"));
    assert_eq!(k.get(6), None);
}

#[test]
fn selector_numbers() {
    assert_eq!(key_number(17), Some(6));
    assert_eq!(key_number(24), Some(12));
    assert_eq!(key_number(28), Some(15));
    assert_eq!(key_number(29), Some(16));
    assert_eq!(key_number(34), Some(20));
    assert_eq!(key_number(22), None);
}

#[test]
fn definitions_stay_within_the_capacity() {
    let mut k = UserKeys::default();
    let long = "41".repeat(400);
    k.load(true, format!("17/{long};18/{long};19/{long}").as_bytes());
    assert!(k.used() <= vt_core::udk::CAPACITY);
    assert_eq!(k.get(6).map(|d| d.len()), Some(400));
}

#[test]
fn unicode_whitespace_around_the_selector_is_trimmed() {
    let mut k = UserKeys::default();
    assert!(k.load(true, b"\xc2\xa017/41;\xe3\x80\x8018\xe2\x80\x8a/42"));
    assert_eq!(k.get(6), Some(&b"A"[..]));
    assert_eq!(k.get(7), Some(&b"B"[..]));
}
