use vt_core::charset::{
    encode_dec_multinational, Charset, CharsetState, Nrc, ERROR_CHARACTER, SOFT_BASE, TECHNICAL_PUA,
};

#[test]
fn special_graphics_line_drawing() {
    let s = Charset::DecSpecialGraphics;
    let box_chars: String = b"lqkxmj".iter().map(|&b| s.map(b).unwrap()).collect();
    assert_eq!(box_chars, "┌─┐│└┘");
    assert_eq!(s.map(b'A'), Some('A'));
    assert_eq!(s.map(0x7F), None);
}

#[test]
fn ninety_six_sets_use_space_and_del_positions() {
    assert_eq!(Charset::IsoLatin1.map(0x20), Some('\u{A0}'));
    assert_eq!(Charset::IsoLatin1.map(0x7F), Some('ÿ'));
}

#[test]
fn single_shift_applies_once() {
    let mut st = CharsetState::vt220(Charset::DecSupplemental);
    st.g[3] = Charset::DecSpecialGraphics;
    st.single_shift = Some(3);
    assert_eq!(st.translate(b'q'), Some('─'));
    assert_eq!(st.translate(b'q'), Some('q'));
}

#[test]
fn dec_multinational_keyboard_encoding() {
    assert_eq!(encode_dec_multinational('é'), Some(0xE9));
    assert_eq!(encode_dec_multinational('Œ'), Some(0xD7));
    assert_eq!(encode_dec_multinational('¤'), Some(0xA8));
    assert_eq!(encode_dec_multinational('×'), None);
    assert_eq!(encode_dec_multinational('─'), None);
}

#[test]
fn gr_uses_g2_supplemental() {
    let mut st = CharsetState::vt220(Charset::DecSupplemental);
    assert_eq!(st.translate(0xD7), Some('Œ'));
    assert_eq!(st.translate(0xE9), Some('é'));
}

#[test]
fn national_sets_follow_dec_tables() {
    let german = Charset::National(Nrc::German);
    let s: String = b"[\\]{|}~@".iter().map(|&b| german.map(b).unwrap()).collect();
    assert_eq!(s, "ÄÖÜäöüß§");
    let swiss = Charset::National(Nrc::Swiss);
    assert_eq!(swiss.map(b'#'), Some('ù'));
    assert_eq!(Charset::national(None, b'7'), Some(Nrc::Swedish));
    assert_eq!(Charset::national(Some(b'%'), b'6'), Some(Nrc::Portuguese));
}

#[test]
fn national_keyboard_encoding() {
    assert_eq!(Nrc::German.encode('ß'), Some(b'~'));
    assert_eq!(Nrc::German.encode('a'), Some(b'a'));
    assert_eq!(Nrc::German.encode('['), None, "replaced by Ä in this set");
    assert_eq!(Nrc::British.encode('£'), Some(b'#'));
}

#[test]
fn dec_technical() {
    let t = Charset::DecTechnical;
    assert_eq!(t.map(0x44), Some('Δ'));
    assert_eq!(t.map(0x7B), Some('←'));
    assert_eq!(t.map(0x6D), Some(ERROR_CHARACTER), "undefined");
    assert_eq!(t.map(0x31), char::from_u32(TECHNICAL_PUA + 1));
}

#[test]
fn soft_sets_map_to_private_use() {
    let s = Charset::Soft { slot: 1, is_96: false };
    assert_eq!(s.map(0x21), char::from_u32(SOFT_BASE + 256 + 0x21));
}

#[test]
fn national_map_then_encode_gives_the_code_back() {
    for n in [Nrc::German, Nrc::British, Nrc::Swiss, Nrc::French] {
        for code in 0x21u8..0x7F {
            let ch = n.map(code);
            assert_eq!(n.encode(ch), Some(code), "{n:?} {code:#x}");
        }
    }
}

#[test]
fn dec_multinational_encoding_reads_back_through_the_supplemental_set() {
    for code in 0xA1u8..=0xFE {
        if let Some(ch) = Charset::DecSupplemental.map(code - 0x80) {
            if let Some(back) = encode_dec_multinational(ch) {
                assert_eq!(back, code);
            }
        }
    }
}

#[test]
fn vt100_state_passes_ascii() {
    let mut st = CharsetState::vt100();
    assert_eq!(st.translate(b'A'), Some('A'));
}
