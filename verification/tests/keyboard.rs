use vt_core::keyboard::{encode, Key, KeyContext};

const VT420: KeyContext = KeyContext {
    ansi: true,
    level: 4,
    eight_bit: false,
    cursor_app: false,
    keypad_app: false,
    new_line: false,
    backarrow_bs: false,
};

fn enc(key: Key, cx: KeyContext) -> Vec<u8> {
    let mut out = Vec::new();
    encode(key, cx, &mut out);
    out
}

#[test]
fn cursor_keys_by_mode() {
    assert_eq!(enc(Key::Up, VT420), b"\x1b[A");
    assert_eq!(enc(Key::Up, KeyContext { cursor_app: true, ..VT420 }), b"\x1bOA");
    assert_eq!(enc(Key::Up, KeyContext { cursor_app: true, eight_bit: true, ..VT420 }), b"\x8fA");
    assert_eq!(enc(Key::Left, KeyContext { ansi: false, ..VT420 }), b"\x1bD");
}

#[test]
fn keypad_by_mode() {
    assert_eq!(enc(Key::Keypad(7), VT420), b"7");
    assert_eq!(enc(Key::KeypadEnter, KeyContext { new_line: true, ..VT420 }), b"\r\n");
    let app = KeyContext { keypad_app: true, ..VT420 };
    assert_eq!(enc(Key::Keypad(7), app), b"\x1bOw");
    assert_eq!(enc(Key::KeypadComma, app), b"\x1bOl");
    assert_eq!(enc(Key::KeypadEnter, app), b"\x1bOM");
    assert_eq!(enc(Key::KeypadPeriod, KeyContext { ansi: false, ..app }), b"\x1b?n");
    assert_eq!(enc(Key::Pf1, VT420), b"\x1bOP");
    assert_eq!(enc(Key::Pf4, KeyContext { ansi: false, ..VT420 }), b"\x1bS");
}

#[test]
fn editing_and_function_keys() {
    assert_eq!(enc(Key::Find, VT420), b"\x1b[1~");
    assert_eq!(enc(Key::NextScreen, VT420), b"\x1b[6~");
    assert_eq!(enc(Key::Function(6), VT420), b"\x1b[17~");
    assert_eq!(enc(Key::Function(11), VT420), b"\x1b[23~");
    assert_eq!(enc(Key::Function(15), VT420), b"\x1b[28~");
    assert_eq!(enc(Key::Function(16), VT420), b"\x1b[29~");
    assert_eq!(enc(Key::Function(20), KeyContext { eight_bit: true, ..VT420 }), b"\x9b34~");
    let vt100 = KeyContext { level: 1, ..VT420 };
    assert_eq!(enc(Key::Function(11), vt100), b"\x1b");
    assert!(enc(Key::Function(6), vt100).is_empty());
    assert!(enc(Key::Find, vt100).is_empty());
}

#[test]
fn delete_and_return() {
    assert_eq!(enc(Key::Delete, VT420), b"\x7f");
    assert_eq!(enc(Key::Delete, KeyContext { backarrow_bs: true, ..VT420 }), b"\x08");
    assert_eq!(enc(Key::Return, VT420), b"\r");
    assert_eq!(enc(Key::Return, KeyContext { new_line: true, ..VT420 }), b"\r\n");
}

#[test]
fn encoding_appends_to_what_is_there() {
    let mut out = b"x".to_vec();
    encode(Key::Up, VT420, &mut out);
    assert_eq!(out, b"x\x1b[A");
}
