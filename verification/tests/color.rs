use vt_core::cell::{Attrs, Color, Flags};
use vt_core::color::{default_alternate, default_map, ColorMode, ColorOptions, ColorTable};

#[test]
fn default_alternate_table_order() {
    let t = default_alternate();
    assert_eq!(t[0], (7, 0));
    assert_eq!(t[1], (15, 0));
    assert_eq!(t[2], (0, 7));
    assert_eq!(t[3], (6, 0));
    assert_eq!(t[15], (0, 13));
    let bold_underline = Flags::bold() | Flags::underline();
    assert_eq!(ColorTable::alternate_index(bold_underline), 6);
}

#[test]
fn sgr_mode_bold_brightens_and_reverse_swaps() {
    let table = ColorTable::default();
    let mut attrs = Attrs { fg: Color::Indexed(1), ..Attrs::default() };
    attrs.flags = Flags::bold() | Flags::reverse();
    let c = table.resolve(attrs, ColorOptions::default(), true);
    assert_eq!(c.bg, default_map()[9]);
    assert_eq!(c.fg, default_map()[0]);
}

#[test]
fn color_mode_codes_read_back() {
    for m in [ColorMode::Mono, ColorMode::Alternate, ColorMode::Alternate2, ColorMode::Sgr] {
        assert_eq!(ColorMode::from_code(m.code()), Some(m));
    }
    assert_eq!(ColorMode::from_code(4), None);
}

#[test]
fn alternate_mode_writes_the_decatc_colours() {
    let mut table = ColorTable::default();
    table.mode = ColorMode::Alternate;
    let attrs = Attrs { flags: Flags::underline(), ..Attrs::default() };
    let written = table.attrs_for_writing(attrs);
    assert_eq!(written.fg, Color::Indexed(6));
    assert_eq!(written.bg, Color::Indexed(0));
    assert!(written.flags.contains(Flags::color_alternate()));
}

#[test]
fn blinking_off_phase_is_dimmer_and_invisible_hides() {
    let table = ColorTable::default();
    let attrs = Attrs { flags: Flags::blink(), fg: Color::Indexed(7), ..Attrs::default() };
    let c = table.resolve(attrs, ColorOptions::default(), false);
    assert_eq!(c.fg, [40, 40, 40]);
    let hidden = Attrs { flags: Flags::invisible(), ..Attrs::default() };
    let c = table.resolve(hidden, ColorOptions::default(), true);
    assert!(c.hidden);
    assert_eq!(c.fg, c.bg);
}

#[test]
fn mono_mode_uses_grey_levels() {
    let mut table = ColorTable::default();
    table.mode = ColorMode::Mono;
    let written = table.attrs_for_writing(Attrs { flags: Flags::bold(), ..Attrs::default() });
    let c = table.resolve(written, ColorOptions::default(), true);
    assert_eq!(c.fg, [100, 100, 100]);
    assert_eq!(c.bg, [0, 0, 0]);
}
