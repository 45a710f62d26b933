use vt_core::charset::SOFT_BASE;
use vt_core::softfont::{default_matrix, DldParams, SoftFonts};

fn params(start: u16) -> DldParams {
    DldParams {
        font_number: 1,
        start,
        erase: 0,
        width: 0,
        font_set_size: 0,
        text_or_full_cell: 0,
        height: 0,
        is_96: false,
    }
}

#[test]
fn decodes_sixel_bands() {
    let mut fonts = SoftFonts::default();
    fonts.load(params(1), b" @~@/B", 4).unwrap();
    assert_eq!(fonts.find(b" @", false), Some(0));
    let ch = char::from_u32(SOFT_BASE + 0x21).unwrap();
    let g = fonts.glyph(ch, false).expect("loaded");
    assert_eq!((g.width, g.height), (10, 16));
    assert_eq!(&g.rows[..9], &[0b11, 1, 1, 1, 1, 1, 1, 1, 0]);
    assert!(fonts.glyph(ch, true).is_none(), "no 132-column rendition loaded");
}

#[test]
fn erase_modes() {
    let mut fonts = SoftFonts::default();
    fonts.load(params(1), b" @~;~", 4).unwrap();
    let second = char::from_u32(SOFT_BASE + 0x22).unwrap();
    fonts.load(DldParams { erase: 1, ..params(1) }, b" @~", 4).unwrap();
    assert!(fonts.glyph(second, false).is_some(), "Pe=1 keeps other glyphs");
    fonts.load(params(1), b" @~", 4).unwrap();
    assert!(fonts.glyph(second, false).is_none(), "Pe=0 erases the rendition");
}

#[test]
fn rejects_bad_headers() {
    let mut fonts = SoftFonts::default();
    assert!(fonts.load(DldParams { font_set_size: 7, ..params(1) }, b" @~", 4).is_err());
    assert!(fonts.load(params(1), b"!!!@~", 4).is_err());
}

#[test]
fn each_refusal_names_its_reason() {
    let mut fonts = SoftFonts::default();
    assert_eq!(fonts.load(DldParams { font_set_size: 7, ..params(1) }, b" @~", 4), Err("unsupported font set size"));
    assert_eq!(fonts.load(DldParams { width: 1, ..params(1) }, b" @~", 4), Err("bad matrix width"));
    assert_eq!(fonts.load(DldParams { height: 17, ..params(1) }, b" @~", 4), Err("bad matrix height"));
    assert_eq!(fonts.load(params(1), b"!!!@~", 4), Err("bad designator"));
    assert_eq!(fonts.load(params(1), b" ", 4), Err("bad designator"));
    assert_eq!(fonts.load(DldParams { font_number: 3, ..params(1) }, b" @~", 4), Err("bad font number"));
    assert_eq!(fonts.find(b" @", false), None, "nothing was loaded");
}

#[test]
fn wide_sets_load_the_132_column_rendition() {
    let mut fonts = SoftFonts::default();
    fonts.load(DldParams { font_set_size: 2, font_number: 0, ..params(0) }, b"A~", 4).unwrap();
    assert_eq!(fonts.designation(0), Some(&b"A"[..]));
    let ch = char::from_u32(SOFT_BASE + 0x20).unwrap();
    let g = fonts.glyph(ch, true).expect("loaded");
    assert_eq!(g.width, default_matrix(4).1);
    assert!(fonts.glyph(ch, false).is_none());
    assert_eq!(default_matrix(2), (8, 5, 10));
}

#[test]
fn clear_drops_every_font() {
    let mut fonts = SoftFonts::default();
    fonts.load(params(1), b" @~", 4).unwrap();
    fonts.clear();
    assert_eq!(fonts.find(b" @", false), None);
    assert_eq!(fonts.designation(0), None);
}

#[test]
fn the_buffer_loaded_last_is_found() {
    let mut fonts = SoftFonts::default();
    let p = DldParams {
        font_number: 2,
        start: 1,
        erase: 0,
        width: 0,
        font_set_size: 0,
        text_or_full_cell: 0,
        height: 0,
        is_96: false,
    };
    assert_eq!(fonts.load(p, b" @~", 4), Ok(()));
    assert_eq!(fonts.find(b" @", false), Some(1));
    assert_eq!(fonts.load(DldParams { font_number: 1, ..p }, b" @~", 4), Ok(()));
    assert_eq!(fonts.find(b" @", false), Some(0));
    assert_eq!(fonts.load(p, b" @~", 4), Ok(()));
    assert_eq!(fonts.find(b" @", false), Some(1));
}
