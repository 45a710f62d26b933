//! Each saved `name=value` line read back: the name is one the reader
//! knows, the value has no line end, and reading it sets the feature it
//! was written from.

use vstd::prelude::*;
use crate::charset::Nrc;
use crate::config::{max_level, Model, StatusDisplay, Supplemental};
use crate::setup::read::{
    answerback_of, two_named, num_in, apply_setting, chars_ascii, first_parity, keys_from, parity_named,
};
use crate::setup::saving::{clean, key_ok, lemma_clean_concat, lemma_dec_clean, lemma_mode_round_trip, lemma_tabs_round_trip};
use crate::setup::text::{
    break_name, compose_name, cursor_style_name, flag_text, keys_text, mode_name, scroll_name, status_name,
    tabs_text, upss_name, volume_name,
};
use crate::setup::{
    all_parities, dialect_index, lemma_dialect_index, page_length_offered, parity_name, saver_minutes_offered,
    screen_lines_offered, speed_offered, terminal_id_offered, terminal_mode_offered, BreakKey, ComposeKey,
    DisplayView, FeaturesView, GeneralView, GlobalView, KeysView, LayoutView, LineView, ModemView, Parity,
    Scroll, ScreenView, TerminalMode, Volume,
};
use crate::terminal::{CursorStyle, LocalKeyAction};
use crate::text::{char_bytes, dec, hex_text, is_digit, lemma_hex_round_trip, lemma_parse_dec, parse_uint};

verus! {

/// A switch saved as `1` or `0` reads back.
proof fn lemma_flag(b: bool)
    ensures
        clean(flag_text(b)),
        (flag_text(b) == "1"@) == b,
        two_named(flag_text(b), "1"@, "0"@) == Some(b),
{
    reveal(flag_text);
    reveal(clean);
    reveal_strlit("1");
    reveal_strlit("0");
    assert("1"@.len() == 1);
    assert("0"@.len() == 1);
    assert("1"@[0] == '1');
    assert("0"@[0] == '0');
}

/// The auto-repeat rates saved as numbers read back.
proof fn lemma_repeat_rate(x: u8)
    requires
        x == 10 || x == 30,
    ensures
        clean(dec(x as nat)),
        (dec(x as nat) == "10"@) == (x == 10),
        (dec(x as nat) == "30"@) == (x == 30),
{
    reveal(clean);
    reveal_strlit("10");
    reveal_strlit("30");
    assert("30"@ =~= seq!['3', '0']);
    lemma_dec_clean(x as nat);
    assert("10"@.len() == 2);
    assert("10"@[0] == '1');
    assert("10"@[1] == '0');
    assert(dec(1) =~= seq!['1']);
    assert(dec(10) =~= seq!['1', '0']);
    assert(dec(3) =~= seq!['3']);
    assert(dec(30) =~= seq!['3', '0']);
    assert(dec(30)[0] == '3');
    assert("10"@ =~= seq!['1', '0']);
}

/// The words saved for no receive speed, no modem speed and no XOFF are
/// no numbers.
proof fn lemma_words()
    ensures
        parse_uint("transmit"@, 0xFFFF_FFFF) is None,
        parse_uint("ignore"@, 0xFFFF_FFFF) is None,
        parse_uint("none"@, 65535) is None,
        clean("transmit"@),
        clean("ignore"@),
        clean("none"@),
{
    reveal(clean);
    reveal_strlit("transmit");
    reveal_strlit("ignore");
    reveal_strlit("none");
    assert(!is_digit("transmit"@[0]) && "transmit"@[0] != '+');
    assert(!is_digit("ignore"@[0]) && "ignore"@[0] != '+');
    assert(!is_digit("none"@[0]) && "none"@[0] != '+');
}

/// A parity reads back from its saved name.
proof fn lemma_parity_round_trip(p: Parity)
    ensures
        clean(parity_name(p)),
        parity_named(parity_name(p)) == Some(p),
{
    reveal(clean);
    reveal_strlit("none");
    reveal_strlit("even");
    reveal_strlit("odd");
    reveal_strlit("even-unchecked");
    reveal_strlit("odd-unchecked");
    reveal_strlit("mark");
    reveal_strlit("space");
    assert("none"@.len() == 4);
    assert("even"@.len() == 4);
    assert("odd"@.len() == 3);
    assert("even-unchecked"@.len() == 14);
    assert("odd-unchecked"@.len() == 13);
    assert("mark"@.len() == 4);
    assert("space"@.len() == 5);
    assert("none"@[0] == 'n');
    assert("even"@[0] == 'e');
    assert("mark"@[0] == 'm');
    let p0 = all_parities();
    let p1 = p0.drop_first();
    let p2 = p1.drop_first();
    let p3 = p2.drop_first();
    let p4 = p3.drop_first();
    let p5 = p4.drop_first();
    let p6 = p5.drop_first();
    assert(p1 =~= seq![Parity::Even, Parity::Odd, Parity::EvenUnchecked, Parity::OddUnchecked, Parity::Mark, Parity::Space]);
    assert(p2 =~= seq![Parity::Odd, Parity::EvenUnchecked, Parity::OddUnchecked, Parity::Mark, Parity::Space]);
    assert(p3 =~= seq![Parity::EvenUnchecked, Parity::OddUnchecked, Parity::Mark, Parity::Space]);
    assert(p4 =~= seq![Parity::OddUnchecked, Parity::Mark, Parity::Space]);
    assert(p5 =~= seq![Parity::Mark, Parity::Space]);
    assert(p6 =~= seq![Parity::Space]);
    let v = parity_name(p);
    assert(first_parity(p0, v) == if parity_name(p0[0]) == v { Some(p0[0]) } else { first_parity(p1, v) });
    assert(first_parity(p1, v) == if parity_name(p1[0]) == v { Some(p1[0]) } else { first_parity(p2, v) });
    assert(first_parity(p2, v) == if parity_name(p2[0]) == v { Some(p2[0]) } else { first_parity(p3, v) });
    assert(first_parity(p3, v) == if parity_name(p3[0]) == v { Some(p3[0]) } else { first_parity(p4, v) });
    assert(first_parity(p4, v) == if parity_name(p4[0]) == v { Some(p4[0]) } else { first_parity(p5, v) });
    assert(first_parity(p5, v) == if parity_name(p5[0]) == v { Some(p5[0]) } else { first_parity(p6, v) });
    assert(first_parity(p6, v) == if parity_name(p6[0]) == v { Some(p6[0]) } else { first_parity(p6.drop_first(), v) });
}

/// The answerback saved as hex pairs reads back.
proof fn lemma_answerback_round_trip(x: Seq<u8>)
    ensures
        clean(hex_text(x, false)),
        answerback_of(hex_text(x, false)) == Some(x),
{
    reveal(clean);
    lemma_hex_round_trip(x);
    let v = hex_text(x, false);
    assert forall|i: int| 0 <= i < v.len() implies (v[i] as u32) < 128 && #[trigger] v[i] != '\n' && v[i] != '\r' by {
        let c = v[i];
        assert('0' <= c <= '9' || 'a' <= c <= 'f');
    }
    assert(chars_ascii(v));
    assert(char_bytes(v) =~= v.map_values(|c: char| c as u8));
}

/// The local function keys saved as letters read back over keys of the
/// same number.
proof fn lemma_keys_round_trip(old: Seq<LocalKeyAction>, x: Seq<LocalKeyAction>)
    requires
        x.len() == old.len(),
    ensures
        clean(keys_text(x)),
        keys_from(old, keys_text(x)) == x,
{
    reveal(clean);
    assert(keys_from(old, keys_text(x)) =~= x);
}

/// Saved tab stops hold digits and commas only.
proof fn lemma_tabs_clean(t: Seq<bool>)
    ensures
        clean(tabs_text(t)),
    decreases t.len(),
{
    reveal(clean);
    if t.len() > 0 {
        let r = tabs_text(t.drop_last());
        lemma_tabs_clean(t.drop_last());
        lemma_dec_clean(t.len());
        if t.last() && r.len() > 0 {
            lemma_clean_concat(r, seq![',']);
            lemma_clean_concat(r + seq![','], dec(t.len()));
        }
    }
}


/// The names of the saved settings: their lengths, and where names of one
/// length differ.
proof fn lemma_names()
    ensures
        "on-line"@.len() == 7,
        "crt-saver"@.len() == 9,
        "comm1-dec423"@.len() == 12,
        "refresh-60hz"@.len() == 12,
        "printer-session"@.len() == 15,
        "columns"@.len() == 7,
        "display-controls"@.len() == 16,
        "autowrap"@.len() == 8,
        "scroll"@.len() == 6,
        "light-screen"@.len() == 12,
        "cursor"@.len() == 6,
        "cursor-style"@.len() == 12,
        "status"@.len() == 6,
        "page-length"@.len() == 11,
        "screen-lines"@.len() == 12,
        "vertical-coupling"@.len() == 17,
        "page-coupling"@.len() == 13,
        "auto-resize"@.len() == 11,
        "clear-on-column-change"@.len() == 22,
        "zero-style"@.len() == 10,
        "crt-saver-minutes"@.len() == 17,
        "energy-saver-minutes"@.len() == 20,
        "host-wake-up"@.len() == 12,
        "overscan"@.len() == 8,
        "terminal-mode"@.len() == 13,
        "udk-locked"@.len() == 10,
        "user-features-locked"@.len() == 20,
        "national"@.len() == 8,
        "new-line"@.len() == 8,
        "upss"@.len() == 4,
        "terminal-id"@.len() == 11,
        "update"@.len() == 6,
        "transmit-speed"@.len() == 14,
        "receive-speed"@.len() == 13,
        "modem-high-speed"@.len() == 16,
        "modem-low-speed"@.len() == 15,
        "transmit-flow"@.len() == 13,
        "receive-flow"@.len() == 12,
        "flow-threshold-high"@.len() == 19,
        "transmit-rate"@.len() == 13,
        "fkey-rate"@.len() == 9,
        "ignore-null"@.len() == 11,
        "half-duplex"@.len() == 11,
        "word-size"@.len() == 9,
        "parity"@.len() == 6,
        "xoff"@.len() == 4,
        "data-format"@.len() == 11,
        "stop-bits"@.len() == 9,
        "local-echo"@.len() == 10,
        "modem-control"@.len() == 13,
        "disconnect"@.len() == 10,
        "limited-transmit"@.len() == 16,
        "auto-answerback"@.len() == 15,
        "answerback"@.len() == 10,
        "conceal-answerback"@.len() == 18,
        "data-processing-keys"@.len() == 20,
        "shift-lock"@.len() == 10,
        "auto-repeat"@.len() == 11,
        "auto-repeat-rate"@.len() == 16,
        "keyclick"@.len() == 8,
        "margin-bell"@.len() == 11,
        "warning-bell"@.len() == 12,
        "position-mode"@.len() == 13,
        "backarrow-bs"@.len() == 12,
        "compose"@.len() == 7,
        "report-alt"@.len() == 10,
        "local-keys"@.len() == 10,
        "break-key"@.len() == 9,
        "comma-period-same"@.len() == 17,
        "angle-sends-tilde"@.len() == 17,
        "tilde-sends-escape"@.len() == 18,
        "keyboard"@.len() == 8,
        "tabs"@.len() == 4,
        "on-line"@[0] == 'o',
        "crt-saver"@[0] == 'c',
        "comm1-dec423"@[0] == 'c',
        "comm1-dec423"@[1] == 'o',
        "refresh-60hz"@[0] == 'r',
        "refresh-60hz"@[2] == 'f',
        "printer-session"@[0] == 'p',
        "columns"@[0] == 'c',
        "columns"@[2] == 'l',
        "display-controls"@[0] == 'd',
        "autowrap"@[0] == 'a',
        "scroll"@[0] == 's',
        "scroll"@[1] == 'c',
        "light-screen"@[0] == 'l',
        "cursor"@[0] == 'c',
        "cursor-style"@[0] == 'c',
        "cursor-style"@[1] == 'u',
        "status"@[0] == 's',
        "status"@[1] == 't',
        "page-length"@[0] == 'p',
        "screen-lines"@[0] == 's',
        "vertical-coupling"@[0] == 'v',
        "page-coupling"@[0] == 'p',
        "page-coupling"@[1] == 'a',
        "auto-resize"@[0] == 'a',
        "auto-resize"@[7] == 's',
        "zero-style"@[0] == 'z',
        "crt-saver-minutes"@[0] == 'c',
        "crt-saver-minutes"@[1] == 'r',
        "energy-saver-minutes"@[0] == 'e',
        "host-wake-up"@[0] == 'h',
        "overscan"@[0] == 'o',
        "terminal-mode"@[0] == 't',
        "terminal-mode"@[1] == 'e',
        "udk-locked"@[0] == 'u',
        "user-features-locked"@[0] == 'u',
        "national"@[0] == 'n',
        "national"@[1] == 'a',
        "new-line"@[0] == 'n',
        "new-line"@[1] == 'e',
        "upss"@[0] == 'u',
        "terminal-id"@[0] == 't',
        "update"@[0] == 'u',
        "receive-speed"@[0] == 'r',
        "modem-high-speed"@[0] == 'm',
        "modem-low-speed"@[0] == 'm',
        "transmit-flow"@[0] == 't',
        "transmit-flow"@[1] == 'r',
        "transmit-flow"@[9] == 'f',
        "receive-flow"@[0] == 'r',
        "receive-flow"@[2] == 'c',
        "transmit-rate"@[0] == 't',
        "transmit-rate"@[1] == 'r',
        "transmit-rate"@[9] == 'r',
        "fkey-rate"@[0] == 'f',
        "ignore-null"@[0] == 'i',
        "half-duplex"@[0] == 'h',
        "word-size"@[0] == 'w',
        "parity"@[0] == 'p',
        "xoff"@[0] == 'x',
        "data-format"@[0] == 'd',
        "stop-bits"@[0] == 's',
        "local-echo"@[0] == 'l',
        "local-echo"@[6] == 'e',
        "modem-control"@[0] == 'm',
        "disconnect"@[0] == 'd',
        "limited-transmit"@[0] == 'l',
        "auto-answerback"@[0] == 'a',
        "answerback"@[0] == 'a',
        "conceal-answerback"@[0] == 'c',
        "data-processing-keys"@[0] == 'd',
        "shift-lock"@[0] == 's',
        "auto-repeat"@[0] == 'a',
        "auto-repeat"@[7] == 'p',
        "auto-repeat-rate"@[0] == 'a',
        "keyclick"@[0] == 'k',
        "keyclick"@[3] == 'c',
        "margin-bell"@[0] == 'm',
        "warning-bell"@[0] == 'w',
        "position-mode"@[0] == 'p',
        "position-mode"@[1] == 'o',
        "backarrow-bs"@[0] == 'b',
        "compose"@[0] == 'c',
        "compose"@[2] == 'm',
        "report-alt"@[0] == 'r',
        "local-keys"@[0] == 'l',
        "local-keys"@[6] == 'k',
        "break-key"@[0] == 'b',
        "comma-period-same"@[0] == 'c',
        "comma-period-same"@[1] == 'o',
        "angle-sends-tilde"@[0] == 'a',
        "tilde-sends-escape"@[0] == 't',
        "keyboard"@[0] == 'k',
        "keyboard"@[3] == 'b',
        "tabs"@[0] == 't',
{
    reveal_strlit("on-line");
    reveal_strlit("crt-saver");
    reveal_strlit("comm1-dec423");
    reveal_strlit("refresh-60hz");
    reveal_strlit("printer-session");
    reveal_strlit("columns");
    reveal_strlit("display-controls");
    reveal_strlit("autowrap");
    reveal_strlit("scroll");
    reveal_strlit("light-screen");
    reveal_strlit("cursor");
    reveal_strlit("cursor-style");
    reveal_strlit("status");
    reveal_strlit("page-length");
    reveal_strlit("screen-lines");
    reveal_strlit("vertical-coupling");
    reveal_strlit("page-coupling");
    reveal_strlit("auto-resize");
    reveal_strlit("clear-on-column-change");
    reveal_strlit("zero-style");
    reveal_strlit("crt-saver-minutes");
    reveal_strlit("energy-saver-minutes");
    reveal_strlit("host-wake-up");
    reveal_strlit("overscan");
    reveal_strlit("terminal-mode");
    reveal_strlit("udk-locked");
    reveal_strlit("user-features-locked");
    reveal_strlit("national");
    reveal_strlit("new-line");
    reveal_strlit("upss");
    reveal_strlit("terminal-id");
    reveal_strlit("update");
    reveal_strlit("transmit-speed");
    reveal_strlit("receive-speed");
    reveal_strlit("modem-high-speed");
    reveal_strlit("modem-low-speed");
    reveal_strlit("transmit-flow");
    reveal_strlit("receive-flow");
    reveal_strlit("flow-threshold-high");
    reveal_strlit("transmit-rate");
    reveal_strlit("fkey-rate");
    reveal_strlit("ignore-null");
    reveal_strlit("half-duplex");
    reveal_strlit("word-size");
    reveal_strlit("parity");
    reveal_strlit("xoff");
    reveal_strlit("data-format");
    reveal_strlit("stop-bits");
    reveal_strlit("local-echo");
    reveal_strlit("modem-control");
    reveal_strlit("disconnect");
    reveal_strlit("limited-transmit");
    reveal_strlit("auto-answerback");
    reveal_strlit("answerback");
    reveal_strlit("conceal-answerback");
    reveal_strlit("data-processing-keys");
    reveal_strlit("shift-lock");
    reveal_strlit("auto-repeat");
    reveal_strlit("auto-repeat-rate");
    reveal_strlit("keyclick");
    reveal_strlit("margin-bell");
    reveal_strlit("warning-bell");
    reveal_strlit("position-mode");
    reveal_strlit("backarrow-bs");
    reveal_strlit("compose");
    reveal_strlit("report-alt");
    reveal_strlit("local-keys");
    reveal_strlit("break-key");
    reveal_strlit("comma-period-same");
    reveal_strlit("angle-sends-tilde");
    reveal_strlit("tilde-sends-escape");
    reveal_strlit("keyboard");
    reveal_strlit("tabs");
}

/// `g` with `on_line` set to `x`.
#[verifier::opaque]
pub(crate) open spec fn with_on_line(g: FeaturesView, x: bool) -> FeaturesView {
    FeaturesView { global: GlobalView { on_line: x, ..g.global }, ..g }
}

/// `on-line=`: the saved value reads back.
pub(crate) proof fn lemma_line_on_line(model: Model, g: FeaturesView, x: bool)
    ensures
        key_ok("on-line"@),
        clean(flag_text(x)),
        apply_setting(model, g, "on-line"@, flag_text(x)) == with_on_line(g, x),
{
    reveal(clean);
    reveal(key_ok);
    reveal(apply_setting);
    reveal(with_on_line);
    reveal(crate::setup::read::set_on_line);
    reveal_strlit("on-line");
    lemma_names();
    lemma_flag(x);
}

/// `g` with `crt_saver` set to `x`.
#[verifier::opaque]
pub(crate) open spec fn with_crt_saver(g: FeaturesView, x: bool) -> FeaturesView {
    FeaturesView { global: GlobalView { crt_saver: x, ..g.global }, ..g }
}

/// `crt-saver=`: the saved value reads back.
pub(crate) proof fn lemma_line_crt_saver(model: Model, g: FeaturesView, x: bool)
    ensures
        key_ok("crt-saver"@),
        clean(flag_text(x)),
        apply_setting(model, g, "crt-saver"@, flag_text(x)) == with_crt_saver(g, x),
{
    reveal(clean);
    reveal(key_ok);
    reveal(apply_setting);
    reveal(with_crt_saver);
    reveal(crate::setup::read::set_crt_saver);
    reveal_strlit("crt-saver");
    lemma_names();
    lemma_flag(x);
}

/// `g` with `comm1_dec423` set to `x`.
#[verifier::opaque]
pub(crate) open spec fn with_comm1_dec423(g: FeaturesView, x: bool) -> FeaturesView {
    FeaturesView { global: GlobalView { comm1_dec423: x, ..g.global }, ..g }
}

/// `comm1-dec423=`: the saved value reads back.
pub(crate) proof fn lemma_line_comm1_dec423(model: Model, g: FeaturesView, x: bool)
    ensures
        key_ok("comm1-dec423"@),
        clean(flag_text(x)),
        apply_setting(model, g, "comm1-dec423"@, flag_text(x)) == with_comm1_dec423(g, x),
{
    reveal(clean);
    reveal(key_ok);
    reveal(apply_setting);
    reveal(with_comm1_dec423);
    reveal(crate::setup::read::set_comm1_dec423);
    reveal_strlit("comm1-dec423");
    lemma_names();
    lemma_flag(x);
}

/// `g` with `refresh_60hz` set to `x`.
#[verifier::opaque]
pub(crate) open spec fn with_refresh_60hz(g: FeaturesView, x: bool) -> FeaturesView {
    FeaturesView { global: GlobalView { refresh_60hz: x, ..g.global }, ..g }
}

/// `refresh-60hz=`: the saved value reads back.
pub(crate) proof fn lemma_line_refresh_60hz(model: Model, g: FeaturesView, x: bool)
    ensures
        key_ok("refresh-60hz"@),
        clean(flag_text(x)),
        apply_setting(model, g, "refresh-60hz"@, flag_text(x)) == with_refresh_60hz(g, x),
{
    reveal(clean);
    reveal(key_ok);
    reveal(apply_setting);
    reveal(with_refresh_60hz);
    reveal(crate::setup::read::set_refresh_60hz);
    reveal_strlit("refresh-60hz");
    lemma_names();
    lemma_flag(x);
}

/// The value saved for `printer-session`.
#[verifier::opaque]
pub(crate) open spec fn val_printer_session(x: u8) -> Seq<char> {
    dec(x as nat)
}

/// `g` with `printer_session` set to `x`.
#[verifier::opaque]
pub(crate) open spec fn with_printer_session(g: FeaturesView, x: u8) -> FeaturesView {
    FeaturesView { global: GlobalView { printer_session: x, ..g.global }, ..g }
}

/// `printer-session=`: the saved value reads back.
pub(crate) proof fn lemma_line_printer_session(model: Model, g: FeaturesView, x: u8)
    requires
        x <= 2,
    ensures
        key_ok("printer-session"@),
        clean(val_printer_session(x)),
        apply_setting(model, g, "printer-session"@, val_printer_session(x)) == with_printer_session(g, x),
{
    reveal(clean);
    reveal(key_ok);
    reveal(val_printer_session);
    reveal(apply_setting);
    reveal(with_printer_session);
    reveal(crate::setup::read::set_printer_session);
    reveal_strlit("printer-session");
    lemma_names();
    lemma_parse_dec(x as nat, usize::MAX as nat);
    lemma_dec_clean(x as nat);
}

/// The value saved for `columns`.
#[verifier::opaque]
pub(crate) open spec fn val_columns_132(x: bool) -> Seq<char> {
    (if x { "132"@ } else { "80"@ })
}

/// `g` with `columns_132` set to `x`.
#[verifier::opaque]
pub(crate) open spec fn with_columns_132(g: FeaturesView, x: bool) -> FeaturesView {
    FeaturesView { display: DisplayView { columns_132: x, ..g.display }, ..g }
}

/// `columns=`: the saved value reads back.
pub(crate) proof fn lemma_line_columns_132(model: Model, g: FeaturesView, x: bool)
    ensures
        key_ok("columns"@),
        clean(val_columns_132(x)),
        apply_setting(model, g, "columns"@, val_columns_132(x)) == with_columns_132(g, x),
{
    reveal(clean);
    reveal(key_ok);
    reveal(val_columns_132);
    reveal(apply_setting);
    reveal(with_columns_132);
    reveal(crate::setup::read::set_columns);
    reveal_strlit("columns");
    lemma_names();
    reveal_strlit("132");
    reveal_strlit("80");
    assert("132"@.len() == 3);
    assert("80"@.len() == 2);
}

/// `g` with `display_controls` set to `x`.
#[verifier::opaque]
pub(crate) open spec fn with_display_controls(g: FeaturesView, x: bool) -> FeaturesView {
    FeaturesView { display: DisplayView { display_controls: x, ..g.display }, ..g }
}

/// `display-controls=`: the saved value reads back.
pub(crate) proof fn lemma_line_display_controls(model: Model, g: FeaturesView, x: bool)
    ensures
        key_ok("display-controls"@),
        clean(flag_text(x)),
        apply_setting(model, g, "display-controls"@, flag_text(x)) == with_display_controls(g, x),
{
    reveal(clean);
    reveal(key_ok);
    reveal(apply_setting);
    reveal(with_display_controls);
    reveal(crate::setup::read::set_display_controls);
    reveal_strlit("display-controls");
    lemma_names();
    lemma_flag(x);
}

/// `g` with `autowrap` set to `x`.
#[verifier::opaque]
pub(crate) open spec fn with_autowrap(g: FeaturesView, x: bool) -> FeaturesView {
    FeaturesView { display: DisplayView { autowrap: x, ..g.display }, ..g }
}

/// `autowrap=`: the saved value reads back.
pub(crate) proof fn lemma_line_autowrap(model: Model, g: FeaturesView, x: bool)
    ensures
        key_ok("autowrap"@),
        clean(flag_text(x)),
        apply_setting(model, g, "autowrap"@, flag_text(x)) == with_autowrap(g, x),
{
    reveal(clean);
    reveal(key_ok);
    reveal(apply_setting);
    reveal(with_autowrap);
    reveal(crate::setup::read::set_autowrap);
    reveal_strlit("autowrap");
    lemma_names();
    lemma_flag(x);
}

/// The value saved for `scroll`.
#[verifier::opaque]
pub(crate) open spec fn val_scroll(x: Scroll) -> Seq<char> {
    scroll_name(x)
}

/// `g` with `scroll` set to `x`.
#[verifier::opaque]
pub(crate) open spec fn with_scroll(g: FeaturesView, x: Scroll) -> FeaturesView {
    FeaturesView { display: DisplayView { scroll: x, ..g.display }, ..g }
}

/// `scroll=`: the saved value reads back.
pub(crate) proof fn lemma_line_scroll(model: Model, g: FeaturesView, x: Scroll)
    ensures
        key_ok("scroll"@),
        clean(val_scroll(x)),
        apply_setting(model, g, "scroll"@, val_scroll(x)) == with_scroll(g, x),
{
    reveal(clean);
    reveal(key_ok);
    reveal(val_scroll);
    reveal(apply_setting);
    reveal(with_scroll);
    reveal(crate::setup::read::set_scroll);
    reveal_strlit("scroll");
    lemma_names();
    reveal_strlit("jump");
    reveal_strlit("smooth-2");
    reveal_strlit("smooth-4");
    assert("jump"@.len() == 4);
    assert("smooth-2"@.len() == 8);
    assert("smooth-4"@.len() == 8);
    assert("smooth-2"@[7] == '2');
    assert("smooth-4"@[7] == '4');
}

/// `g` with `light_screen` set to `x`.
#[verifier::opaque]
pub(crate) open spec fn with_light_screen(g: FeaturesView, x: bool) -> FeaturesView {
    FeaturesView { display: DisplayView { light_screen: x, ..g.display }, ..g }
}

/// `light-screen=`: the saved value reads back.
pub(crate) proof fn lemma_line_light_screen(model: Model, g: FeaturesView, x: bool)
    ensures
        key_ok("light-screen"@),
        clean(flag_text(x)),
        apply_setting(model, g, "light-screen"@, flag_text(x)) == with_light_screen(g, x),
{
    reveal(clean);
    reveal(key_ok);
    reveal(apply_setting);
    reveal(with_light_screen);
    reveal(crate::setup::read::set_light_screen);
    reveal_strlit("light-screen");
    lemma_names();
    lemma_flag(x);
}

/// `g` with `cursor` set to `x`.
#[verifier::opaque]
pub(crate) open spec fn with_cursor(g: FeaturesView, x: bool) -> FeaturesView {
    FeaturesView { display: DisplayView { cursor: x, ..g.display }, ..g }
}

/// `cursor=`: the saved value reads back.
pub(crate) proof fn lemma_line_cursor(model: Model, g: FeaturesView, x: bool)
    ensures
        key_ok("cursor"@),
        clean(flag_text(x)),
        apply_setting(model, g, "cursor"@, flag_text(x)) == with_cursor(g, x),
{
    reveal(clean);
    reveal(key_ok);
    reveal(apply_setting);
    reveal(with_cursor);
    reveal(crate::setup::read::set_cursor);
    reveal_strlit("cursor");
    lemma_names();
    lemma_flag(x);
}

/// The value saved for `cursor-style`.
#[verifier::opaque]
pub(crate) open spec fn val_cursor_style(x: CursorStyle) -> Seq<char> {
    cursor_style_name(x)
}

/// `g` with `cursor_style` set to `x`.
#[verifier::opaque]
pub(crate) open spec fn with_cursor_style(g: FeaturesView, x: CursorStyle) -> FeaturesView {
    FeaturesView { display: DisplayView { cursor_style: x, ..g.display }, ..g }
}

/// `cursor-style=`: the saved value reads back.
pub(crate) proof fn lemma_line_cursor_style(model: Model, g: FeaturesView, x: CursorStyle)
    ensures
        key_ok("cursor-style"@),
        clean(val_cursor_style(x)),
        apply_setting(model, g, "cursor-style"@, val_cursor_style(x)) == with_cursor_style(g, x),
{
    reveal(clean);
    reveal(key_ok);
    reveal(val_cursor_style);
    reveal(apply_setting);
    reveal(with_cursor_style);
    reveal(crate::setup::read::set_cursor_style);
    reveal_strlit("cursor-style");
    lemma_names();
    reveal_strlit("blinking-block");
    reveal_strlit("steady-block");
    reveal_strlit("blinking-underline");
    reveal_strlit("steady-underline");
    assert("blinking-block"@.len() == 14);
    assert("steady-block"@.len() == 12);
    assert("blinking-underline"@.len() == 18);
    assert("steady-underline"@.len() == 16);
}

/// The value saved for `status`.
#[verifier::opaque]
pub(crate) open spec fn val_status(x: StatusDisplay) -> Seq<char> {
    status_name(x)
}

/// `g` with `status` set to `x`.
#[verifier::opaque]
pub(crate) open spec fn with_status(g: FeaturesView, x: StatusDisplay) -> FeaturesView {
    FeaturesView { display: DisplayView { status: x, ..g.display }, ..g }
}

/// `status=`: the saved value reads back.
pub(crate) proof fn lemma_line_status(model: Model, g: FeaturesView, x: StatusDisplay)
    requires
        max_level(model) < 3 ==> x == StatusDisplay::NoDisplay && g.display.status == StatusDisplay::NoDisplay,
    ensures
        key_ok("status"@),
        clean(val_status(x)),
        apply_setting(model, g, "status"@, val_status(x)) == with_status(g, x),
{
    reveal(clean);
    reveal(key_ok);
    reveal(val_status);
    reveal(apply_setting);
    reveal(with_status);
    reveal(crate::setup::read::set_status);
    reveal_strlit("status");
    lemma_names();
    reveal_strlit("none");
    reveal_strlit("indicator");
    reveal_strlit("host");
    assert("none"@.len() == 4);
    assert("indicator"@.len() == 9);
    assert("host"@.len() == 4);
    assert("host"@[0] == 'h');
    assert("none"@[0] == 'n');
}

/// The value saved for `page-length`.
#[verifier::opaque]
pub(crate) open spec fn val_page_length(x: usize) -> Seq<char> {
    dec(x as nat)
}

/// `g` with `page_length` set to `x`.
#[verifier::opaque]
pub(crate) open spec fn with_page_length(g: FeaturesView, x: usize) -> FeaturesView {
    FeaturesView { display: DisplayView { page_length: x, ..g.display }, ..g }
}

/// `page-length=`: the saved value reads back.
pub(crate) proof fn lemma_line_page_length(model: Model, g: FeaturesView, x: usize)
    requires
        page_length_offered(model, x as nat),
    ensures
        key_ok("page-length"@),
        clean(val_page_length(x)),
        apply_setting(model, g, "page-length"@, val_page_length(x)) == with_page_length(g, x),
{
    reveal(clean);
    reveal(key_ok);
    reveal(val_page_length);
    reveal(apply_setting);
    reveal(with_page_length);
    reveal(crate::setup::read::set_page_length);
    reveal_strlit("page-length");
    lemma_names();
    lemma_parse_dec(x as nat, usize::MAX as nat);
    lemma_dec_clean(x as nat);
}

/// The value saved for `screen-lines`.
#[verifier::opaque]
pub(crate) open spec fn val_screen_lines(x: usize) -> Seq<char> {
    dec(x as nat)
}

/// `g` with `screen_lines` set to `x`.
#[verifier::opaque]
pub(crate) open spec fn with_screen_lines(g: FeaturesView, x: usize) -> FeaturesView {
    FeaturesView { screen: ScreenView { screen_lines: x, ..g.screen }, ..g }
}

/// `screen-lines=`: the saved value reads back.
pub(crate) proof fn lemma_line_screen_lines(model: Model, g: FeaturesView, x: usize)
    requires
        screen_lines_offered(x as nat),
    ensures
        key_ok("screen-lines"@),
        clean(val_screen_lines(x)),
        apply_setting(model, g, "screen-lines"@, val_screen_lines(x)) == with_screen_lines(g, x),
{
    reveal(clean);
    reveal(key_ok);
    reveal(val_screen_lines);
    reveal(apply_setting);
    reveal(with_screen_lines);
    reveal(crate::setup::read::set_screen_lines);
    reveal_strlit("screen-lines");
    lemma_names();
    lemma_parse_dec(x as nat, usize::MAX as nat);
    lemma_dec_clean(x as nat);
}

/// `g` with `vertical_coupling` set to `x`.
#[verifier::opaque]
pub(crate) open spec fn with_vertical_coupling(g: FeaturesView, x: bool) -> FeaturesView {
    FeaturesView { screen: ScreenView { vertical_coupling: x, ..g.screen }, ..g }
}

/// `vertical-coupling=`: the saved value reads back.
pub(crate) proof fn lemma_line_vertical_coupling(model: Model, g: FeaturesView, x: bool)
    ensures
        key_ok("vertical-coupling"@),
        clean(flag_text(x)),
        apply_setting(model, g, "vertical-coupling"@, flag_text(x)) == with_vertical_coupling(g, x),
{
    reveal(clean);
    reveal(key_ok);
    reveal(apply_setting);
    reveal(with_vertical_coupling);
    reveal(crate::setup::read::set_vertical_coupling);
    reveal_strlit("vertical-coupling");
    lemma_names();
    lemma_flag(x);
}

/// `g` with `page_coupling` set to `x`.
#[verifier::opaque]
pub(crate) open spec fn with_page_coupling(g: FeaturesView, x: bool) -> FeaturesView {
    FeaturesView { screen: ScreenView { page_coupling: x, ..g.screen }, ..g }
}

/// `page-coupling=`: the saved value reads back.
pub(crate) proof fn lemma_line_page_coupling(model: Model, g: FeaturesView, x: bool)
    ensures
        key_ok("page-coupling"@),
        clean(flag_text(x)),
        apply_setting(model, g, "page-coupling"@, flag_text(x)) == with_page_coupling(g, x),
{
    reveal(clean);
    reveal(key_ok);
    reveal(apply_setting);
    reveal(with_page_coupling);
    reveal(crate::setup::read::set_page_coupling);
    reveal_strlit("page-coupling");
    lemma_names();
    lemma_flag(x);
}

/// `g` with `auto_resize` set to `x`.
#[verifier::opaque]
pub(crate) open spec fn with_auto_resize(g: FeaturesView, x: bool) -> FeaturesView {
    FeaturesView { screen: ScreenView { auto_resize: x, ..g.screen }, ..g }
}

/// `auto-resize=`: the saved value reads back.
pub(crate) proof fn lemma_line_auto_resize(model: Model, g: FeaturesView, x: bool)
    ensures
        key_ok("auto-resize"@),
        clean(flag_text(x)),
        apply_setting(model, g, "auto-resize"@, flag_text(x)) == with_auto_resize(g, x),
{
    reveal(clean);
    reveal(key_ok);
    reveal(apply_setting);
    reveal(with_auto_resize);
    reveal(crate::setup::read::set_auto_resize);
    reveal_strlit("auto-resize");
    lemma_names();
    lemma_flag(x);
}

/// `g` with `clear_on_column_change` set to `x`.
#[verifier::opaque]
pub(crate) open spec fn with_clear_on_column_change(g: FeaturesView, x: bool) -> FeaturesView {
    FeaturesView { screen: ScreenView { clear_on_column_change: x, ..g.screen }, ..g }
}

/// `clear-on-column-change=`: the saved value reads back.
pub(crate) proof fn lemma_line_clear_on_column_change(model: Model, g: FeaturesView, x: bool)
    ensures
        key_ok("clear-on-column-change"@),
        clean(flag_text(x)),
        apply_setting(model, g, "clear-on-column-change"@, flag_text(x)) == with_clear_on_column_change(g, x),
{
    reveal(clean);
    reveal(key_ok);
    reveal(apply_setting);
    reveal(with_clear_on_column_change);
    reveal(crate::setup::read::set_clear_on_column_change);
    reveal_strlit("clear-on-column-change");
    lemma_names();
    lemma_flag(x);
}

/// The value saved for `zero-style`.
#[verifier::opaque]
pub(crate) open spec fn val_zero_style(x: u8) -> Seq<char> {
    dec(x as nat)
}

/// `g` with `zero_style` set to `x`.
#[verifier::opaque]
pub(crate) open spec fn with_zero_style(g: FeaturesView, x: u8) -> FeaturesView {
    FeaturesView { screen: ScreenView { zero_style: x, ..g.screen }, ..g }
}

/// `zero-style=`: the saved value reads back.
pub(crate) proof fn lemma_line_zero_style(model: Model, g: FeaturesView, x: u8)
    requires
        1 <= x <= 3,
    ensures
        key_ok("zero-style"@),
        clean(val_zero_style(x)),
        apply_setting(model, g, "zero-style"@, val_zero_style(x)) == with_zero_style(g, x),
{
    reveal(clean);
    reveal(key_ok);
    reveal(val_zero_style);
    reveal(apply_setting);
    reveal(with_zero_style);
    reveal(crate::setup::read::set_zero_style);
    reveal_strlit("zero-style");
    lemma_names();
    lemma_parse_dec(x as nat, usize::MAX as nat);
    lemma_dec_clean(x as nat);
}

/// The value saved for `crt-saver-minutes`.
#[verifier::opaque]
pub(crate) open spec fn val_crt_saver_minutes(x: u16) -> Seq<char> {
    dec(x as nat)
}

/// `g` with `crt_saver_minutes` set to `x`.
#[verifier::opaque]
pub(crate) open spec fn with_crt_saver_minutes(g: FeaturesView, x: u16) -> FeaturesView {
    FeaturesView { screen: ScreenView { crt_saver_minutes: x, ..g.screen }, ..g }
}

/// `crt-saver-minutes=`: the saved value reads back.
pub(crate) proof fn lemma_line_crt_saver_minutes(model: Model, g: FeaturesView, x: u16)
    requires
        saver_minutes_offered(x as nat),
    ensures
        key_ok("crt-saver-minutes"@),
        clean(val_crt_saver_minutes(x)),
        apply_setting(model, g, "crt-saver-minutes"@, val_crt_saver_minutes(x)) == with_crt_saver_minutes(g, x),
{
    reveal(clean);
    reveal(key_ok);
    reveal(val_crt_saver_minutes);
    reveal(apply_setting);
    reveal(with_crt_saver_minutes);
    reveal(crate::setup::read::set_crt_saver_minutes);
    reveal_strlit("crt-saver-minutes");
    lemma_names();
    lemma_parse_dec(x as nat, usize::MAX as nat);
    lemma_dec_clean(x as nat);
    assert((x as nat) % 65536 == x as nat);
}

/// The value saved for `energy-saver-minutes`.
#[verifier::opaque]
pub(crate) open spec fn val_energy_saver_minutes(x: u16) -> Seq<char> {
    dec(x as nat)
}

/// `g` with `energy_saver_minutes` set to `x`.
#[verifier::opaque]
pub(crate) open spec fn with_energy_saver_minutes(g: FeaturesView, x: u16) -> FeaturesView {
    FeaturesView { screen: ScreenView { energy_saver_minutes: x, ..g.screen }, ..g }
}

/// `energy-saver-minutes=`: the saved value reads back.
pub(crate) proof fn lemma_line_energy_saver_minutes(model: Model, g: FeaturesView, x: u16)
    requires
        saver_minutes_offered(x as nat),
    ensures
        key_ok("energy-saver-minutes"@),
        clean(val_energy_saver_minutes(x)),
        apply_setting(model, g, "energy-saver-minutes"@, val_energy_saver_minutes(x)) == with_energy_saver_minutes(g, x),
{
    reveal(clean);
    reveal(key_ok);
    reveal(val_energy_saver_minutes);
    reveal(apply_setting);
    reveal(with_energy_saver_minutes);
    reveal(crate::setup::read::set_energy_saver_minutes);
    reveal_strlit("energy-saver-minutes");
    lemma_names();
    lemma_parse_dec(x as nat, usize::MAX as nat);
    lemma_dec_clean(x as nat);
    assert((x as nat) % 65536 == x as nat);
}

/// `g` with `host_wake_up` set to `x`.
#[verifier::opaque]
pub(crate) open spec fn with_host_wake_up(g: FeaturesView, x: bool) -> FeaturesView {
    FeaturesView { screen: ScreenView { host_wake_up: x, ..g.screen }, ..g }
}

/// `host-wake-up=`: the saved value reads back.
pub(crate) proof fn lemma_line_host_wake_up(model: Model, g: FeaturesView, x: bool)
    ensures
        key_ok("host-wake-up"@),
        clean(flag_text(x)),
        apply_setting(model, g, "host-wake-up"@, flag_text(x)) == with_host_wake_up(g, x),
{
    reveal(clean);
    reveal(key_ok);
    reveal(apply_setting);
    reveal(with_host_wake_up);
    reveal(crate::setup::read::set_host_wake_up);
    reveal_strlit("host-wake-up");
    lemma_names();
    lemma_flag(x);
}

/// `g` with `overscan` set to `x`.
#[verifier::opaque]
pub(crate) open spec fn with_overscan(g: FeaturesView, x: bool) -> FeaturesView {
    FeaturesView { screen: ScreenView { overscan: x, ..g.screen }, ..g }
}

/// `overscan=`: the saved value reads back.
pub(crate) proof fn lemma_line_overscan(model: Model, g: FeaturesView, x: bool)
    ensures
        key_ok("overscan"@),
        clean(flag_text(x)),
        apply_setting(model, g, "overscan"@, flag_text(x)) == with_overscan(g, x),
{
    reveal(clean);
    reveal(key_ok);
    reveal(apply_setting);
    reveal(with_overscan);
    reveal(crate::setup::read::set_overscan);
    reveal_strlit("overscan");
    lemma_names();
    lemma_flag(x);
}

/// The value saved for `terminal-mode`.
#[verifier::opaque]
pub(crate) open spec fn val_terminal_mode(x: TerminalMode) -> Seq<char> {
    mode_name(x)
}

/// `g` with `terminal_mode` set to `x`.
#[verifier::opaque]
pub(crate) open spec fn with_terminal_mode(g: FeaturesView, x: TerminalMode) -> FeaturesView {
    FeaturesView { general: GeneralView { terminal_mode: x, ..g.general }, ..g }
}

/// `terminal-mode=`: the saved value reads back.
pub(crate) proof fn lemma_line_terminal_mode(model: Model, g: FeaturesView, x: TerminalMode)
    requires
        terminal_mode_offered(model, x),
    ensures
        key_ok("terminal-mode"@),
        clean(val_terminal_mode(x)),
        apply_setting(model, g, "terminal-mode"@, val_terminal_mode(x)) == with_terminal_mode(g, x),
{
    reveal(clean);
    reveal(key_ok);
    reveal(val_terminal_mode);
    reveal(apply_setting);
    reveal(with_terminal_mode);
    reveal(crate::setup::read::set_terminal_mode);
    reveal_strlit("terminal-mode");
    lemma_names();
    lemma_mode_round_trip(model, x);
}

/// `g` with `udk_locked` set to `x`.
#[verifier::opaque]
pub(crate) open spec fn with_udk_locked(g: FeaturesView, x: bool) -> FeaturesView {
    FeaturesView { general: GeneralView { udk_locked: x, ..g.general }, ..g }
}

/// `udk-locked=`: the saved value reads back.
pub(crate) proof fn lemma_line_udk_locked(model: Model, g: FeaturesView, x: bool)
    ensures
        key_ok("udk-locked"@),
        clean(flag_text(x)),
        apply_setting(model, g, "udk-locked"@, flag_text(x)) == with_udk_locked(g, x),
{
    reveal(clean);
    reveal(key_ok);
    reveal(apply_setting);
    reveal(with_udk_locked);
    reveal(crate::setup::read::set_udk_locked);
    reveal_strlit("udk-locked");
    lemma_names();
    lemma_flag(x);
}

/// `g` with `user_features_locked` set to `x`.
#[verifier::opaque]
pub(crate) open spec fn with_user_features_locked(g: FeaturesView, x: bool) -> FeaturesView {
    FeaturesView { general: GeneralView { user_features_locked: x, ..g.general }, ..g }
}

/// `user-features-locked=`: the saved value reads back.
pub(crate) proof fn lemma_line_user_features_locked(model: Model, g: FeaturesView, x: bool)
    ensures
        key_ok("user-features-locked"@),
        clean(flag_text(x)),
        apply_setting(model, g, "user-features-locked"@, flag_text(x)) == with_user_features_locked(g, x),
{
    reveal(clean);
    reveal(key_ok);
    reveal(apply_setting);
    reveal(with_user_features_locked);
    reveal(crate::setup::read::set_user_features_locked);
    reveal_strlit("user-features-locked");
    lemma_names();
    lemma_flag(x);
}

/// `g` with `national` set to `x`.
#[verifier::opaque]
pub(crate) open spec fn with_national(g: FeaturesView, x: bool) -> FeaturesView {
    FeaturesView { general: GeneralView { national: x, ..g.general }, ..g }
}

/// `national=`: the saved value reads back.
pub(crate) proof fn lemma_line_national(model: Model, g: FeaturesView, x: bool)
    ensures
        key_ok("national"@),
        clean(flag_text(x)),
        apply_setting(model, g, "national"@, flag_text(x)) == with_national(g, x),
{
    reveal(clean);
    reveal(key_ok);
    reveal(apply_setting);
    reveal(with_national);
    reveal(crate::setup::read::set_national);
    reveal_strlit("national");
    lemma_names();
    lemma_flag(x);
}

/// `g` with `new_line` set to `x`.
#[verifier::opaque]
pub(crate) open spec fn with_new_line(g: FeaturesView, x: bool) -> FeaturesView {
    FeaturesView { general: GeneralView { new_line: x, ..g.general }, ..g }
}

/// `new-line=`: the saved value reads back.
pub(crate) proof fn lemma_line_new_line(model: Model, g: FeaturesView, x: bool)
    ensures
        key_ok("new-line"@),
        clean(flag_text(x)),
        apply_setting(model, g, "new-line"@, flag_text(x)) == with_new_line(g, x),
{
    reveal(clean);
    reveal(key_ok);
    reveal(apply_setting);
    reveal(with_new_line);
    reveal(crate::setup::read::set_new_line);
    reveal_strlit("new-line");
    lemma_names();
    lemma_flag(x);
}

/// The value saved for `upss`.
#[verifier::opaque]
pub(crate) open spec fn val_upss(x: Supplemental) -> Seq<char> {
    upss_name(x)
}

/// `g` with `upss` set to `x`.
#[verifier::opaque]
pub(crate) open spec fn with_upss(g: FeaturesView, x: Supplemental) -> FeaturesView {
    FeaturesView { general: GeneralView { upss: x, ..g.general }, ..g }
}

/// `upss=`: the saved value reads back.
pub(crate) proof fn lemma_line_upss(model: Model, g: FeaturesView, x: Supplemental)
    ensures
        key_ok("upss"@),
        clean(val_upss(x)),
        apply_setting(model, g, "upss"@, val_upss(x)) == with_upss(g, x),
{
    reveal(clean);
    reveal(key_ok);
    reveal(val_upss);
    reveal(apply_setting);
    reveal(with_upss);
    reveal(crate::setup::read::set_upss);
    reveal_strlit("upss");
    lemma_names();
    reveal_strlit("dec");
    reveal_strlit("latin1");
    assert("dec"@.len() == 3);
    assert("latin1"@.len() == 6);
}

/// The value saved for `terminal-id`.
#[verifier::opaque]
pub(crate) open spec fn val_terminal_id(x: u16) -> Seq<char> {
    dec(x as nat)
}

/// `g` with `terminal_id` set to `x`.
#[verifier::opaque]
pub(crate) open spec fn with_terminal_id(g: FeaturesView, x: u16) -> FeaturesView {
    FeaturesView { general: GeneralView { terminal_id: x, ..g.general }, ..g }
}

/// `terminal-id=`: the saved value reads back.
pub(crate) proof fn lemma_line_terminal_id(model: Model, g: FeaturesView, x: u16)
    requires
        terminal_id_offered(model, x as nat),
    ensures
        key_ok("terminal-id"@),
        clean(val_terminal_id(x)),
        apply_setting(model, g, "terminal-id"@, val_terminal_id(x)) == with_terminal_id(g, x),
{
    reveal(clean);
    reveal(key_ok);
    reveal(val_terminal_id);
    reveal(apply_setting);
    reveal(with_terminal_id);
    reveal(crate::setup::read::set_terminal_id);
    reveal_strlit("terminal-id");
    lemma_names();
    lemma_parse_dec(x as nat, usize::MAX as nat);
    lemma_dec_clean(x as nat);
    assert((x as nat) % 65536 == x as nat);
}

/// The value saved for `update`.
#[verifier::opaque]
pub(crate) open spec fn val_update(x: u16) -> Seq<char> {
    dec(x as nat)
}

/// `g` with `update` set to `x`.
#[verifier::opaque]
pub(crate) open spec fn with_update(g: FeaturesView, x: u16) -> FeaturesView {
    FeaturesView { general: GeneralView { update: x, ..g.general }, ..g }
}

/// `update=`: the saved value reads back.
pub(crate) proof fn lemma_line_update(model: Model, g: FeaturesView, x: u16)
    requires
        1 <= x <= 3,
    ensures
        key_ok("update"@),
        clean(val_update(x)),
        apply_setting(model, g, "update"@, val_update(x)) == with_update(g, x),
{
    reveal(clean);
    reveal(key_ok);
    reveal(val_update);
    reveal(apply_setting);
    reveal(with_update);
    reveal(crate::setup::read::set_update);
    reveal_strlit("update");
    lemma_names();
    lemma_parse_dec(x as nat, usize::MAX as nat);
    lemma_dec_clean(x as nat);
}

/// The value saved for `transmit-speed`.
#[verifier::opaque]
pub(crate) open spec fn val_transmit_speed(x: u32) -> Seq<char> {
    dec(x as nat)
}

/// `g` with `transmit_speed` set to `x`.
#[verifier::opaque]
pub(crate) open spec fn with_transmit_speed(g: FeaturesView, x: u32) -> FeaturesView {
    FeaturesView { line: LineView { transmit_speed: x, ..g.line }, ..g }
}

/// `transmit-speed=`: the saved value reads back.
pub(crate) proof fn lemma_line_transmit_speed(model: Model, g: FeaturesView, x: u32)
    requires
        speed_offered(model, x as nat),
    ensures
        key_ok("transmit-speed"@),
        clean(val_transmit_speed(x)),
        apply_setting(model, g, "transmit-speed"@, val_transmit_speed(x)) == with_transmit_speed(g, x),
{
    reveal(clean);
    reveal(key_ok);
    reveal(val_transmit_speed);
    reveal(apply_setting);
    reveal(with_transmit_speed);
    reveal(crate::setup::read::set_transmit_speed);
    reveal_strlit("transmit-speed");
    lemma_names();
    lemma_parse_dec(x as nat, usize::MAX as nat);
    lemma_dec_clean(x as nat);
    assert((x as nat) % 0x1_0000_0000 == x as nat);
}

/// The value saved for `receive-speed`.
#[verifier::opaque]
pub(crate) open spec fn val_receive_speed(x: Option<u32>) -> Seq<char> {
    (match x { Some(n) => dec(n as nat), None => "transmit"@ })
}

/// `g` with `receive_speed` set to `x`.
#[verifier::opaque]
pub(crate) open spec fn with_receive_speed(g: FeaturesView, x: Option<u32>) -> FeaturesView {
    FeaturesView { line: LineView { receive_speed: x, ..g.line }, ..g }
}

/// `receive-speed=`: the saved value reads back.
pub(crate) proof fn lemma_line_receive_speed(model: Model, g: FeaturesView, x: Option<u32>)
    requires
        (x matches Some(n) ==> speed_offered(model, n as nat)),
    ensures
        key_ok("receive-speed"@),
        clean(val_receive_speed(x)),
        apply_setting(model, g, "receive-speed"@, val_receive_speed(x)) == with_receive_speed(g, x),
{
    reveal(clean);
    reveal(key_ok);
    reveal(val_receive_speed);
    reveal(apply_setting);
    reveal(with_receive_speed);
    reveal(crate::setup::read::set_receive_speed);
    reveal_strlit("receive-speed");
    lemma_names();
    lemma_words();
    match x {
        Some(n) => {
            lemma_parse_dec(n as nat, 0xFFFF_FFFF);
            lemma_dec_clean(n as nat);
        },
        None => {},
    }
}

/// The value saved for `xoff`.
#[verifier::opaque]
pub(crate) open spec fn val_xoff(x: Option<u16>) -> Seq<char> {
    (match x { Some(n) => dec(n as nat), None => "none"@ })
}

/// `g` with `xoff` set to `x`.
#[verifier::opaque]
pub(crate) open spec fn with_xoff(g: FeaturesView, x: Option<u16>) -> FeaturesView {
    FeaturesView { line: LineView { xoff: x, ..g.line }, ..g }
}

/// `xoff=`: the saved value reads back.
pub(crate) proof fn lemma_line_xoff(model: Model, g: FeaturesView, x: Option<u16>)
    requires
        (x matches Some(n) ==> n == 64 || n == 128),
    ensures
        key_ok("xoff"@),
        clean(val_xoff(x)),
        apply_setting(model, g, "xoff"@, val_xoff(x)) == with_xoff(g, x),
{
    reveal(clean);
    reveal(key_ok);
    reveal(val_xoff);
    reveal(apply_setting);
    reveal(with_xoff);
    reveal(crate::setup::read::set_xoff);
    reveal_strlit("xoff");
    lemma_names();
    lemma_words();
    match x {
        Some(n) => {
            lemma_parse_dec(n as nat, 65535);
            lemma_dec_clean(n as nat);
        },
        None => {},
    }
}

/// The value saved for `word-size`.
#[verifier::opaque]
pub(crate) open spec fn val_seven_bit_data(x: bool) -> Seq<char> {
    (if x { "7"@ } else { "8"@ })
}

/// `g` with `seven_bit_data` set to `x`.
#[verifier::opaque]
pub(crate) open spec fn with_seven_bit_data(g: FeaturesView, x: bool) -> FeaturesView {
    FeaturesView { line: LineView { seven_bit_data: x, ..g.line }, ..g }
}

/// `word-size=`: the saved value reads back.
pub(crate) proof fn lemma_line_seven_bit_data(model: Model, g: FeaturesView, x: bool)
    ensures
        key_ok("word-size"@),
        clean(val_seven_bit_data(x)),
        apply_setting(model, g, "word-size"@, val_seven_bit_data(x)) == with_seven_bit_data(g, x),
{
    reveal(clean);
    reveal(key_ok);
    reveal(val_seven_bit_data);
    reveal(apply_setting);
    reveal(with_seven_bit_data);
    reveal(crate::setup::read::set_word_size);
    reveal_strlit("word-size");
    lemma_names();
    reveal_strlit("7");
    reveal_strlit("8");
    assert("7"@.len() == 1);
    assert("8"@.len() == 1);
    assert("7"@[0] == '7');
    assert("8"@[0] == '8');
}

/// The value saved for `parity`.
#[verifier::opaque]
pub(crate) open spec fn val_parity(x: Parity) -> Seq<char> {
    parity_name(x)
}

/// `g` with `parity` set to `x`.
#[verifier::opaque]
pub(crate) open spec fn with_parity(g: FeaturesView, x: Parity) -> FeaturesView {
    FeaturesView { line: LineView { parity: x, ..g.line }, ..g }
}

/// `parity=`: the saved value reads back.
pub(crate) proof fn lemma_line_parity(model: Model, g: FeaturesView, x: Parity)
    ensures
        key_ok("parity"@),
        clean(val_parity(x)),
        apply_setting(model, g, "parity"@, val_parity(x)) == with_parity(g, x),
{
    reveal(clean);
    reveal(key_ok);
    reveal(val_parity);
    reveal(apply_setting);
    reveal(with_parity);
    reveal(crate::setup::read::set_parity);
    reveal_strlit("parity");
    lemma_names();
    lemma_parity_round_trip(x);
}

/// The value saved for `stop-bits`.
#[verifier::opaque]
pub(crate) open spec fn val_two_stop_bits(x: bool) -> Seq<char> {
    (if x { "2"@ } else { "1"@ })
}

/// `g` with `two_stop_bits` set to `x`.
#[verifier::opaque]
pub(crate) open spec fn with_two_stop_bits(g: FeaturesView, x: bool) -> FeaturesView {
    FeaturesView { line: LineView { two_stop_bits: x, ..g.line }, ..g }
}

/// `stop-bits=`: the saved value reads back.
pub(crate) proof fn lemma_line_two_stop_bits(model: Model, g: FeaturesView, x: bool)
    ensures
        key_ok("stop-bits"@),
        clean(val_two_stop_bits(x)),
        apply_setting(model, g, "stop-bits"@, val_two_stop_bits(x)) == with_two_stop_bits(g, x),
{
    reveal(clean);
    reveal(key_ok);
    reveal(val_two_stop_bits);
    reveal(apply_setting);
    reveal(with_two_stop_bits);
    reveal(crate::setup::read::set_stop_bits);
    reveal_strlit("stop-bits");
    lemma_names();
    reveal_strlit("2");
    reveal_strlit("1");
    assert("2"@.len() == 1);
    assert("1"@.len() == 1);
    assert("1"@[0] == '1');
    assert("2"@[0] == '2');
}

/// The value saved for `transmit-flow`.
#[verifier::opaque]
pub(crate) open spec fn val_transmit_flow(x: u8) -> Seq<char> {
    dec(x as nat)
}

/// `g` with `transmit_flow` set to `x`.
#[verifier::opaque]
pub(crate) open spec fn with_transmit_flow(g: FeaturesView, x: u8) -> FeaturesView {
    FeaturesView { line: LineView { transmit_flow: x, ..g.line }, ..g }
}

/// `transmit-flow=`: the saved value reads back.
pub(crate) proof fn lemma_line_transmit_flow(model: Model, g: FeaturesView, x: u8)
    requires
        x <= 3,
    ensures
        key_ok("transmit-flow"@),
        clean(val_transmit_flow(x)),
        apply_setting(model, g, "transmit-flow"@, val_transmit_flow(x)) == with_transmit_flow(g, x),
{
    reveal(clean);
    reveal(key_ok);
    reveal(val_transmit_flow);
    reveal(apply_setting);
    reveal(with_transmit_flow);
    reveal(crate::setup::read::set_transmit_flow);
    reveal_strlit("transmit-flow");
    lemma_names();
    lemma_parse_dec(x as nat, usize::MAX as nat);
    lemma_dec_clean(x as nat);
}

/// The value saved for `receive-flow`.
#[verifier::opaque]
pub(crate) open spec fn val_receive_flow(x: u8) -> Seq<char> {
    dec(x as nat)
}

/// `g` with `receive_flow` set to `x`.
#[verifier::opaque]
pub(crate) open spec fn with_receive_flow(g: FeaturesView, x: u8) -> FeaturesView {
    FeaturesView { line: LineView { receive_flow: x, ..g.line }, ..g }
}

/// `receive-flow=`: the saved value reads back.
pub(crate) proof fn lemma_line_receive_flow(model: Model, g: FeaturesView, x: u8)
    requires
        x <= 3,
    ensures
        key_ok("receive-flow"@),
        clean(val_receive_flow(x)),
        apply_setting(model, g, "receive-flow"@, val_receive_flow(x)) == with_receive_flow(g, x),
{
    reveal(clean);
    reveal(key_ok);
    reveal(val_receive_flow);
    reveal(apply_setting);
    reveal(with_receive_flow);
    reveal(crate::setup::read::set_receive_flow);
    reveal_strlit("receive-flow");
    lemma_names();
    lemma_parse_dec(x as nat, usize::MAX as nat);
    lemma_dec_clean(x as nat);
}

/// `g` with `flow_threshold_high` set to `x`.
#[verifier::opaque]
pub(crate) open spec fn with_flow_threshold_high(g: FeaturesView, x: bool) -> FeaturesView {
    FeaturesView { line: LineView { flow_threshold_high: x, ..g.line }, ..g }
}

/// `flow-threshold-high=`: the saved value reads back.
pub(crate) proof fn lemma_line_flow_threshold_high(model: Model, g: FeaturesView, x: bool)
    ensures
        key_ok("flow-threshold-high"@),
        clean(flag_text(x)),
        apply_setting(model, g, "flow-threshold-high"@, flag_text(x)) == with_flow_threshold_high(g, x),
{
    reveal(clean);
    reveal(key_ok);
    reveal(apply_setting);
    reveal(with_flow_threshold_high);
    reveal(crate::setup::read::set_flow_threshold_high);
    reveal_strlit("flow-threshold-high");
    lemma_names();
    lemma_flag(x);
}

/// The value saved for `transmit-rate`.
#[verifier::opaque]
pub(crate) open spec fn val_transmit_rate(x: u8) -> Seq<char> {
    dec(x as nat)
}

/// `g` with `transmit_rate` set to `x`.
#[verifier::opaque]
pub(crate) open spec fn with_transmit_rate(g: FeaturesView, x: u8) -> FeaturesView {
    FeaturesView { line: LineView { transmit_rate: x, ..g.line }, ..g }
}

/// `transmit-rate=`: the saved value reads back.
pub(crate) proof fn lemma_line_transmit_rate(model: Model, g: FeaturesView, x: u8)
    requires
        1 <= x <= 3,
    ensures
        key_ok("transmit-rate"@),
        clean(val_transmit_rate(x)),
        apply_setting(model, g, "transmit-rate"@, val_transmit_rate(x)) == with_transmit_rate(g, x),
{
    reveal(clean);
    reveal(key_ok);
    reveal(val_transmit_rate);
    reveal(apply_setting);
    reveal(with_transmit_rate);
    reveal(crate::setup::read::set_transmit_rate);
    reveal_strlit("transmit-rate");
    lemma_names();
    lemma_parse_dec(x as nat, usize::MAX as nat);
    lemma_dec_clean(x as nat);
}

/// The value saved for `fkey-rate`.
#[verifier::opaque]
pub(crate) open spec fn val_fkey_rate(x: u8) -> Seq<char> {
    dec(x as nat)
}

/// `g` with `fkey_rate` set to `x`.
#[verifier::opaque]
pub(crate) open spec fn with_fkey_rate(g: FeaturesView, x: u8) -> FeaturesView {
    FeaturesView { line: LineView { fkey_rate: x, ..g.line }, ..g }
}

/// `fkey-rate=`: the saved value reads back.
pub(crate) proof fn lemma_line_fkey_rate(model: Model, g: FeaturesView, x: u8)
    requires
        x <= 3,
    ensures
        key_ok("fkey-rate"@),
        clean(val_fkey_rate(x)),
        apply_setting(model, g, "fkey-rate"@, val_fkey_rate(x)) == with_fkey_rate(g, x),
{
    reveal(clean);
    reveal(key_ok);
    reveal(val_fkey_rate);
    reveal(apply_setting);
    reveal(with_fkey_rate);
    reveal(crate::setup::read::set_fkey_rate);
    reveal_strlit("fkey-rate");
    lemma_names();
    lemma_parse_dec(x as nat, usize::MAX as nat);
    lemma_dec_clean(x as nat);
}

/// `g` with `ignore_null` set to `x`.
#[verifier::opaque]
pub(crate) open spec fn with_ignore_null(g: FeaturesView, x: bool) -> FeaturesView {
    FeaturesView { modem: ModemView { ignore_null: x, ..g.modem }, ..g }
}

/// `ignore-null=`: the saved value reads back.
pub(crate) proof fn lemma_line_ignore_null(model: Model, g: FeaturesView, x: bool)
    ensures
        key_ok("ignore-null"@),
        clean(flag_text(x)),
        apply_setting(model, g, "ignore-null"@, flag_text(x)) == with_ignore_null(g, x),
{
    reveal(clean);
    reveal(key_ok);
    reveal(apply_setting);
    reveal(with_ignore_null);
    reveal(crate::setup::read::set_ignore_null);
    reveal_strlit("ignore-null");
    lemma_names();
    lemma_flag(x);
}

/// `g` with `half_duplex` set to `x`.
#[verifier::opaque]
pub(crate) open spec fn with_half_duplex(g: FeaturesView, x: bool) -> FeaturesView {
    FeaturesView { modem: ModemView { half_duplex: x, ..g.modem }, ..g }
}

/// `half-duplex=`: the saved value reads back.
pub(crate) proof fn lemma_line_half_duplex(model: Model, g: FeaturesView, x: bool)
    ensures
        key_ok("half-duplex"@),
        clean(flag_text(x)),
        apply_setting(model, g, "half-duplex"@, flag_text(x)) == with_half_duplex(g, x),
{
    reveal(clean);
    reveal(key_ok);
    reveal(apply_setting);
    reveal(with_half_duplex);
    reveal(crate::setup::read::set_half_duplex);
    reveal_strlit("half-duplex");
    lemma_names();
    lemma_flag(x);
}

/// The value saved for `modem-high-speed`.
#[verifier::opaque]
pub(crate) open spec fn val_modem_high_speed(x: Option<u32>) -> Seq<char> {
    (match x { Some(n) => dec(n as nat), None => "ignore"@ })
}

/// `g` with `modem_high_speed` set to `x`.
#[verifier::opaque]
pub(crate) open spec fn with_modem_high_speed(g: FeaturesView, x: Option<u32>) -> FeaturesView {
    FeaturesView { modem: ModemView { modem_high_speed: x, ..g.modem }, ..g }
}

/// `modem-high-speed=`: the saved value reads back.
pub(crate) proof fn lemma_line_modem_high_speed(model: Model, g: FeaturesView, x: Option<u32>)
    requires
        (x matches Some(n) ==> speed_offered(model, n as nat)),
    ensures
        key_ok("modem-high-speed"@),
        clean(val_modem_high_speed(x)),
        apply_setting(model, g, "modem-high-speed"@, val_modem_high_speed(x)) == with_modem_high_speed(g, x),
{
    reveal(clean);
    reveal(key_ok);
    reveal(val_modem_high_speed);
    reveal(apply_setting);
    reveal(with_modem_high_speed);
    reveal(crate::setup::read::set_modem_high_speed);
    reveal_strlit("modem-high-speed");
    lemma_names();
    lemma_words();
    match x {
        Some(n) => {
            lemma_parse_dec(n as nat, 0xFFFF_FFFF);
            lemma_dec_clean(n as nat);
        },
        None => {},
    }
}

/// The value saved for `modem-low-speed`.
#[verifier::opaque]
pub(crate) open spec fn val_modem_low_speed(x: Option<u32>) -> Seq<char> {
    (match x { Some(n) => dec(n as nat), None => "ignore"@ })
}

/// `g` with `modem_low_speed` set to `x`.
#[verifier::opaque]
pub(crate) open spec fn with_modem_low_speed(g: FeaturesView, x: Option<u32>) -> FeaturesView {
    FeaturesView { modem: ModemView { modem_low_speed: x, ..g.modem }, ..g }
}

/// `modem-low-speed=`: the saved value reads back.
pub(crate) proof fn lemma_line_modem_low_speed(model: Model, g: FeaturesView, x: Option<u32>)
    requires
        (x matches Some(n) ==> speed_offered(model, n as nat)),
    ensures
        key_ok("modem-low-speed"@),
        clean(val_modem_low_speed(x)),
        apply_setting(model, g, "modem-low-speed"@, val_modem_low_speed(x)) == with_modem_low_speed(g, x),
{
    reveal(clean);
    reveal(key_ok);
    reveal(val_modem_low_speed);
    reveal(apply_setting);
    reveal(with_modem_low_speed);
    reveal(crate::setup::read::set_modem_low_speed);
    reveal_strlit("modem-low-speed");
    lemma_names();
    lemma_words();
    match x {
        Some(n) => {
            lemma_parse_dec(n as nat, 0xFFFF_FFFF);
            lemma_dec_clean(n as nat);
        },
        None => {},
    }
}

/// `g` with `local_echo` set to `x`.
#[verifier::opaque]
pub(crate) open spec fn with_local_echo(g: FeaturesView, x: bool) -> FeaturesView {
    FeaturesView { modem: ModemView { local_echo: x, ..g.modem }, ..g }
}

/// `local-echo=`: the saved value reads back.
pub(crate) proof fn lemma_line_local_echo(model: Model, g: FeaturesView, x: bool)
    ensures
        key_ok("local-echo"@),
        clean(flag_text(x)),
        apply_setting(model, g, "local-echo"@, flag_text(x)) == with_local_echo(g, x),
{
    reveal(clean);
    reveal(key_ok);
    reveal(apply_setting);
    reveal(with_local_echo);
    reveal(crate::setup::read::set_local_echo);
    reveal_strlit("local-echo");
    lemma_names();
    lemma_flag(x);
}

/// `g` with `modem_control` set to `x`.
#[verifier::opaque]
pub(crate) open spec fn with_modem_control(g: FeaturesView, x: bool) -> FeaturesView {
    FeaturesView { modem: ModemView { modem_control: x, ..g.modem }, ..g }
}

/// `modem-control=`: the saved value reads back.
pub(crate) proof fn lemma_line_modem_control(model: Model, g: FeaturesView, x: bool)
    ensures
        key_ok("modem-control"@),
        clean(flag_text(x)),
        apply_setting(model, g, "modem-control"@, flag_text(x)) == with_modem_control(g, x),
{
    reveal(clean);
    reveal(key_ok);
    reveal(apply_setting);
    reveal(with_modem_control);
    reveal(crate::setup::read::set_modem_control);
    reveal_strlit("modem-control");
    lemma_names();
    lemma_flag(x);
}

/// The value saved for `disconnect`.
#[verifier::opaque]
pub(crate) open spec fn val_disconnect(x: u8) -> Seq<char> {
    dec(x as nat)
}

/// `g` with `disconnect` set to `x`.
#[verifier::opaque]
pub(crate) open spec fn with_disconnect(g: FeaturesView, x: u8) -> FeaturesView {
    FeaturesView { modem: ModemView { disconnect: x, ..g.modem }, ..g }
}

/// `disconnect=`: the saved value reads back.
pub(crate) proof fn lemma_line_disconnect(model: Model, g: FeaturesView, x: u8)
    requires
        x <= 2,
    ensures
        key_ok("disconnect"@),
        clean(val_disconnect(x)),
        apply_setting(model, g, "disconnect"@, val_disconnect(x)) == with_disconnect(g, x),
{
    reveal(clean);
    reveal(key_ok);
    reveal(val_disconnect);
    reveal(apply_setting);
    reveal(with_disconnect);
    reveal(crate::setup::read::set_disconnect);
    reveal_strlit("disconnect");
    lemma_names();
    lemma_parse_dec(x as nat, usize::MAX as nat);
    lemma_dec_clean(x as nat);
}

/// `g` with `limited_transmit` set to `x`.
#[verifier::opaque]
pub(crate) open spec fn with_limited_transmit(g: FeaturesView, x: bool) -> FeaturesView {
    FeaturesView { modem: ModemView { limited_transmit: x, ..g.modem }, ..g }
}

/// `limited-transmit=`: the saved value reads back.
pub(crate) proof fn lemma_line_limited_transmit(model: Model, g: FeaturesView, x: bool)
    ensures
        key_ok("limited-transmit"@),
        clean(flag_text(x)),
        apply_setting(model, g, "limited-transmit"@, flag_text(x)) == with_limited_transmit(g, x),
{
    reveal(clean);
    reveal(key_ok);
    reveal(apply_setting);
    reveal(with_limited_transmit);
    reveal(crate::setup::read::set_limited_transmit);
    reveal_strlit("limited-transmit");
    lemma_names();
    lemma_flag(x);
}

/// `g` with `auto_answerback` set to `x`.
#[verifier::opaque]
pub(crate) open spec fn with_auto_answerback(g: FeaturesView, x: bool) -> FeaturesView {
    FeaturesView { modem: ModemView { auto_answerback: x, ..g.modem }, ..g }
}

/// `auto-answerback=`: the saved value reads back.
pub(crate) proof fn lemma_line_auto_answerback(model: Model, g: FeaturesView, x: bool)
    ensures
        key_ok("auto-answerback"@),
        clean(flag_text(x)),
        apply_setting(model, g, "auto-answerback"@, flag_text(x)) == with_auto_answerback(g, x),
{
    reveal(clean);
    reveal(key_ok);
    reveal(apply_setting);
    reveal(with_auto_answerback);
    reveal(crate::setup::read::set_auto_answerback);
    reveal_strlit("auto-answerback");
    lemma_names();
    lemma_flag(x);
}

/// The value saved for `answerback`.
#[verifier::opaque]
pub(crate) open spec fn val_answerback(x: Seq<u8>) -> Seq<char> {
    hex_text(x, false)
}

/// `g` with `answerback` set to `x`.
#[verifier::opaque]
pub(crate) open spec fn with_answerback(g: FeaturesView, x: Seq<u8>) -> FeaturesView {
    FeaturesView { modem: ModemView { answerback: x, ..g.modem }, ..g }
}

/// `answerback=`: the saved value reads back.
pub(crate) proof fn lemma_line_answerback(model: Model, g: FeaturesView, x: Seq<u8>)
    ensures
        key_ok("answerback"@),
        clean(val_answerback(x)),
        apply_setting(model, g, "answerback"@, val_answerback(x)) == with_answerback(g, x),
{
    reveal(clean);
    reveal(key_ok);
    reveal(val_answerback);
    reveal(apply_setting);
    reveal(with_answerback);
    reveal(crate::setup::read::set_answerback);
    reveal_strlit("answerback");
    lemma_names();
    lemma_answerback_round_trip(x);
}

/// `g` with `conceal_answerback` set to `x`.
#[verifier::opaque]
pub(crate) open spec fn with_conceal_answerback(g: FeaturesView, x: bool) -> FeaturesView {
    FeaturesView { modem: ModemView { conceal_answerback: x, ..g.modem }, ..g }
}

/// `conceal-answerback=`: the saved value reads back.
pub(crate) proof fn lemma_line_conceal_answerback(model: Model, g: FeaturesView, x: bool)
    ensures
        key_ok("conceal-answerback"@),
        clean(flag_text(x)),
        apply_setting(model, g, "conceal-answerback"@, flag_text(x)) == with_conceal_answerback(g, x),
{
    reveal(clean);
    reveal(key_ok);
    reveal(apply_setting);
    reveal(with_conceal_answerback);
    reveal(crate::setup::read::set_conceal_answerback);
    reveal_strlit("conceal-answerback");
    lemma_names();
    lemma_flag(x);
}

/// `g` with `data_processing_keys` set to `x`.
#[verifier::opaque]
pub(crate) open spec fn with_data_processing_keys(g: FeaturesView, x: bool) -> FeaturesView {
    FeaturesView { keys: KeysView { data_processing_keys: x, ..g.keys }, ..g }
}

/// `data-processing-keys=`: the saved value reads back.
pub(crate) proof fn lemma_line_data_processing_keys(model: Model, g: FeaturesView, x: bool)
    ensures
        key_ok("data-processing-keys"@),
        clean(flag_text(x)),
        apply_setting(model, g, "data-processing-keys"@, flag_text(x)) == with_data_processing_keys(g, x),
{
    reveal(clean);
    reveal(key_ok);
    reveal(apply_setting);
    reveal(with_data_processing_keys);
    reveal(crate::setup::read::set_data_processing_keys);
    reveal_strlit("data-processing-keys");
    lemma_names();
    lemma_flag(x);
}

/// `g` with `shift_lock` set to `x`.
#[verifier::opaque]
pub(crate) open spec fn with_shift_lock(g: FeaturesView, x: bool) -> FeaturesView {
    FeaturesView { keys: KeysView { shift_lock: x, ..g.keys }, ..g }
}

/// `shift-lock=`: the saved value reads back.
pub(crate) proof fn lemma_line_shift_lock(model: Model, g: FeaturesView, x: bool)
    ensures
        key_ok("shift-lock"@),
        clean(flag_text(x)),
        apply_setting(model, g, "shift-lock"@, flag_text(x)) == with_shift_lock(g, x),
{
    reveal(clean);
    reveal(key_ok);
    reveal(apply_setting);
    reveal(with_shift_lock);
    reveal(crate::setup::read::set_shift_lock);
    reveal_strlit("shift-lock");
    lemma_names();
    lemma_flag(x);
}

/// `g` with `auto_repeat` set to `x`.
#[verifier::opaque]
pub(crate) open spec fn with_auto_repeat(g: FeaturesView, x: bool) -> FeaturesView {
    FeaturesView { keys: KeysView { auto_repeat: x, ..g.keys }, ..g }
}

/// `auto-repeat=`: the saved value reads back.
pub(crate) proof fn lemma_line_auto_repeat(model: Model, g: FeaturesView, x: bool)
    ensures
        key_ok("auto-repeat"@),
        clean(flag_text(x)),
        apply_setting(model, g, "auto-repeat"@, flag_text(x)) == with_auto_repeat(g, x),
{
    reveal(clean);
    reveal(key_ok);
    reveal(apply_setting);
    reveal(with_auto_repeat);
    reveal(crate::setup::read::set_auto_repeat);
    reveal_strlit("auto-repeat");
    lemma_names();
    lemma_flag(x);
}

/// The value saved for `auto-repeat-rate`.
#[verifier::opaque]
pub(crate) open spec fn val_auto_repeat_rate(x: u8) -> Seq<char> {
    dec(x as nat)
}

/// `g` with `auto_repeat_rate` set to `x`.
#[verifier::opaque]
pub(crate) open spec fn with_auto_repeat_rate(g: FeaturesView, x: u8) -> FeaturesView {
    FeaturesView { keys: KeysView { auto_repeat_rate: x, ..g.keys }, ..g }
}

/// `auto-repeat-rate=`: the saved value reads back.
pub(crate) proof fn lemma_line_auto_repeat_rate(model: Model, g: FeaturesView, x: u8)
    requires
        x == 10 || x == 30,
    ensures
        key_ok("auto-repeat-rate"@),
        clean(val_auto_repeat_rate(x)),
        apply_setting(model, g, "auto-repeat-rate"@, val_auto_repeat_rate(x)) == with_auto_repeat_rate(g, x),
{
    reveal(clean);
    reveal(key_ok);
    reveal(val_auto_repeat_rate);
    reveal(apply_setting);
    reveal(with_auto_repeat_rate);
    reveal(crate::setup::read::set_auto_repeat_rate);
    reveal_strlit("auto-repeat-rate");
    lemma_names();
    lemma_repeat_rate(x);
}

/// The value saved for `keyclick`.
#[verifier::opaque]
pub(crate) open spec fn val_keyclick(x: Volume) -> Seq<char> {
    volume_name(x)
}

/// `g` with `keyclick` set to `x`.
#[verifier::opaque]
pub(crate) open spec fn with_keyclick(g: FeaturesView, x: Volume) -> FeaturesView {
    FeaturesView { keys: KeysView { keyclick: x, ..g.keys }, ..g }
}

/// `keyclick=`: the saved value reads back.
pub(crate) proof fn lemma_line_keyclick(model: Model, g: FeaturesView, x: Volume)
    ensures
        key_ok("keyclick"@),
        clean(val_keyclick(x)),
        apply_setting(model, g, "keyclick"@, val_keyclick(x)) == with_keyclick(g, x),
{
    reveal(clean);
    reveal(key_ok);
    reveal(val_keyclick);
    reveal(apply_setting);
    reveal(with_keyclick);
    reveal(crate::setup::read::set_keyclick);
    reveal_strlit("keyclick");
    lemma_names();
    reveal_strlit("off");
    reveal_strlit("low");
    reveal_strlit("high");
    assert("off"@.len() == 3);
    assert("low"@.len() == 3);
    assert("high"@.len() == 4);
    assert("low"@[0] == 'l');
    assert("off"@[0] == 'o');
}

/// The value saved for `margin-bell`.
#[verifier::opaque]
pub(crate) open spec fn val_margin_bell(x: Volume) -> Seq<char> {
    volume_name(x)
}

/// `g` with `margin_bell` set to `x`.
#[verifier::opaque]
pub(crate) open spec fn with_margin_bell(g: FeaturesView, x: Volume) -> FeaturesView {
    FeaturesView { keys: KeysView { margin_bell: x, ..g.keys }, ..g }
}

/// `margin-bell=`: the saved value reads back.
pub(crate) proof fn lemma_line_margin_bell(model: Model, g: FeaturesView, x: Volume)
    ensures
        key_ok("margin-bell"@),
        clean(val_margin_bell(x)),
        apply_setting(model, g, "margin-bell"@, val_margin_bell(x)) == with_margin_bell(g, x),
{
    reveal(clean);
    reveal(key_ok);
    reveal(val_margin_bell);
    reveal(apply_setting);
    reveal(with_margin_bell);
    reveal(crate::setup::read::set_margin_bell);
    reveal_strlit("margin-bell");
    lemma_names();
    reveal_strlit("off");
    reveal_strlit("low");
    reveal_strlit("high");
    assert("off"@.len() == 3);
    assert("low"@.len() == 3);
    assert("high"@.len() == 4);
    assert("low"@[0] == 'l');
    assert("off"@[0] == 'o');
}

/// The value saved for `warning-bell`.
#[verifier::opaque]
pub(crate) open spec fn val_warning_bell(x: Volume) -> Seq<char> {
    volume_name(x)
}

/// `g` with `warning_bell` set to `x`.
#[verifier::opaque]
pub(crate) open spec fn with_warning_bell(g: FeaturesView, x: Volume) -> FeaturesView {
    FeaturesView { keys: KeysView { warning_bell: x, ..g.keys }, ..g }
}

/// `warning-bell=`: the saved value reads back.
pub(crate) proof fn lemma_line_warning_bell(model: Model, g: FeaturesView, x: Volume)
    ensures
        key_ok("warning-bell"@),
        clean(val_warning_bell(x)),
        apply_setting(model, g, "warning-bell"@, val_warning_bell(x)) == with_warning_bell(g, x),
{
    reveal(clean);
    reveal(key_ok);
    reveal(val_warning_bell);
    reveal(apply_setting);
    reveal(with_warning_bell);
    reveal(crate::setup::read::set_warning_bell);
    reveal_strlit("warning-bell");
    lemma_names();
    reveal_strlit("off");
    reveal_strlit("low");
    reveal_strlit("high");
    assert("off"@.len() == 3);
    assert("low"@.len() == 3);
    assert("high"@.len() == 4);
    assert("low"@[0] == 'l');
    assert("off"@[0] == 'o');
}

/// `g` with `position_mode` set to `x`.
#[verifier::opaque]
pub(crate) open spec fn with_position_mode(g: FeaturesView, x: bool) -> FeaturesView {
    FeaturesView { keys: KeysView { position_mode: x, ..g.keys }, ..g }
}

/// `position-mode=`: the saved value reads back.
pub(crate) proof fn lemma_line_position_mode(model: Model, g: FeaturesView, x: bool)
    ensures
        key_ok("position-mode"@),
        clean(flag_text(x)),
        apply_setting(model, g, "position-mode"@, flag_text(x)) == with_position_mode(g, x),
{
    reveal(clean);
    reveal(key_ok);
    reveal(apply_setting);
    reveal(with_position_mode);
    reveal(crate::setup::read::set_position_mode);
    reveal_strlit("position-mode");
    lemma_names();
    lemma_flag(x);
}

/// `g` with `backarrow_bs` set to `x`.
#[verifier::opaque]
pub(crate) open spec fn with_backarrow_bs(g: FeaturesView, x: bool) -> FeaturesView {
    FeaturesView { keys: KeysView { backarrow_bs: x, ..g.keys }, ..g }
}

/// `backarrow-bs=`: the saved value reads back.
pub(crate) proof fn lemma_line_backarrow_bs(model: Model, g: FeaturesView, x: bool)
    ensures
        key_ok("backarrow-bs"@),
        clean(flag_text(x)),
        apply_setting(model, g, "backarrow-bs"@, flag_text(x)) == with_backarrow_bs(g, x),
{
    reveal(clean);
    reveal(key_ok);
    reveal(apply_setting);
    reveal(with_backarrow_bs);
    reveal(crate::setup::read::set_backarrow_bs);
    reveal_strlit("backarrow-bs");
    lemma_names();
    lemma_flag(x);
}

/// The value saved for `compose`.
#[verifier::opaque]
pub(crate) open spec fn val_compose(x: ComposeKey) -> Seq<char> {
    compose_name(x)
}

/// `g` with `compose` set to `x`.
#[verifier::opaque]
pub(crate) open spec fn with_compose(g: FeaturesView, x: ComposeKey) -> FeaturesView {
    FeaturesView { keys: KeysView { compose: x, ..g.keys }, ..g }
}

/// `compose=`: the saved value reads back.
pub(crate) proof fn lemma_line_compose(model: Model, g: FeaturesView, x: ComposeKey)
    ensures
        key_ok("compose"@),
        clean(val_compose(x)),
        apply_setting(model, g, "compose"@, val_compose(x)) == with_compose(g, x),
{
    reveal(clean);
    reveal(key_ok);
    reveal(val_compose);
    reveal(apply_setting);
    reveal(with_compose);
    reveal(crate::setup::read::set_compose);
    reveal_strlit("compose");
    lemma_names();
    reveal_strlit("local");
    reveal_strlit("report");
    reveal_strlit("ignore");
    assert("local"@.len() == 5);
    assert("report"@.len() == 6);
    assert("ignore"@.len() == 6);
    assert("ignore"@[0] == 'i');
    assert("report"@[0] == 'r');
}

/// `g` with `report_alt` set to `x`.
#[verifier::opaque]
pub(crate) open spec fn with_report_alt(g: FeaturesView, x: bool) -> FeaturesView {
    FeaturesView { keys: KeysView { report_alt: x, ..g.keys }, ..g }
}

/// `report-alt=`: the saved value reads back.
pub(crate) proof fn lemma_line_report_alt(model: Model, g: FeaturesView, x: bool)
    ensures
        key_ok("report-alt"@),
        clean(flag_text(x)),
        apply_setting(model, g, "report-alt"@, flag_text(x)) == with_report_alt(g, x),
{
    reveal(clean);
    reveal(key_ok);
    reveal(apply_setting);
    reveal(with_report_alt);
    reveal(crate::setup::read::set_report_alt);
    reveal_strlit("report-alt");
    lemma_names();
    lemma_flag(x);
}

/// The value saved for `local-keys`.
#[verifier::opaque]
pub(crate) open spec fn val_local_keys(x: Seq<LocalKeyAction>) -> Seq<char> {
    keys_text(x)
}

/// `g` with `local_keys` set to `x`.
#[verifier::opaque]
pub(crate) open spec fn with_local_keys(g: FeaturesView, x: Seq<LocalKeyAction>) -> FeaturesView {
    FeaturesView { layout: LayoutView { local_keys: x, ..g.layout }, ..g }
}

/// `local-keys=`: the saved value reads back.
pub(crate) proof fn lemma_line_local_keys(model: Model, g: FeaturesView, x: Seq<LocalKeyAction>)
    requires
        x.len() == g.layout.local_keys.len(),
    ensures
        key_ok("local-keys"@),
        clean(val_local_keys(x)),
        apply_setting(model, g, "local-keys"@, val_local_keys(x)) == with_local_keys(g, x),
{
    reveal(clean);
    reveal(key_ok);
    reveal(val_local_keys);
    reveal(apply_setting);
    reveal(with_local_keys);
    reveal(crate::setup::read::set_local_keys);
    reveal_strlit("local-keys");
    lemma_names();
    lemma_keys_round_trip(g.layout.local_keys, x);
}

/// The value saved for `break-key`.
#[verifier::opaque]
pub(crate) open spec fn val_break_key(x: BreakKey) -> Seq<char> {
    break_name(x)
}

/// `g` with `break_key` set to `x`.
#[verifier::opaque]
pub(crate) open spec fn with_break_key(g: FeaturesView, x: BreakKey) -> FeaturesView {
    FeaturesView { layout: LayoutView { break_key: x, ..g.layout }, ..g }
}

/// `break-key=`: the saved value reads back.
pub(crate) proof fn lemma_line_break_key(model: Model, g: FeaturesView, x: BreakKey)
    ensures
        key_ok("break-key"@),
        clean(val_break_key(x)),
        apply_setting(model, g, "break-key"@, val_break_key(x)) == with_break_key(g, x),
{
    reveal(clean);
    reveal(key_ok);
    reveal(val_break_key);
    reveal(apply_setting);
    reveal(with_break_key);
    reveal(crate::setup::read::set_break_key);
    reveal_strlit("break-key");
    lemma_names();
    reveal_strlit("break");
    reveal_strlit("no-break");
    reveal_strlit("fkey");
    reveal_strlit("ignore");
    assert("break"@.len() == 5);
    assert("no-break"@.len() == 8);
    assert("fkey"@.len() == 4);
    assert("ignore"@.len() == 6);
}

/// `g` with `comma_period_same` set to `x`.
#[verifier::opaque]
pub(crate) open spec fn with_comma_period_same(g: FeaturesView, x: bool) -> FeaturesView {
    FeaturesView { layout: LayoutView { comma_period_same: x, ..g.layout }, ..g }
}

/// `comma-period-same=`: the saved value reads back.
pub(crate) proof fn lemma_line_comma_period_same(model: Model, g: FeaturesView, x: bool)
    ensures
        key_ok("comma-period-same"@),
        clean(flag_text(x)),
        apply_setting(model, g, "comma-period-same"@, flag_text(x)) == with_comma_period_same(g, x),
{
    reveal(clean);
    reveal(key_ok);
    reveal(apply_setting);
    reveal(with_comma_period_same);
    reveal(crate::setup::read::set_comma_period_same);
    reveal_strlit("comma-period-same");
    lemma_names();
    lemma_flag(x);
}

/// `g` with `angle_sends_tilde` set to `x`.
#[verifier::opaque]
pub(crate) open spec fn with_angle_sends_tilde(g: FeaturesView, x: bool) -> FeaturesView {
    FeaturesView { layout: LayoutView { angle_sends_tilde: x, ..g.layout }, ..g }
}

/// `angle-sends-tilde=`: the saved value reads back.
pub(crate) proof fn lemma_line_angle_sends_tilde(model: Model, g: FeaturesView, x: bool)
    ensures
        key_ok("angle-sends-tilde"@),
        clean(flag_text(x)),
        apply_setting(model, g, "angle-sends-tilde"@, flag_text(x)) == with_angle_sends_tilde(g, x),
{
    reveal(clean);
    reveal(key_ok);
    reveal(apply_setting);
    reveal(with_angle_sends_tilde);
    reveal(crate::setup::read::set_angle_sends_tilde);
    reveal_strlit("angle-sends-tilde");
    lemma_names();
    lemma_flag(x);
}

/// `g` with `tilde_sends_escape` set to `x`.
#[verifier::opaque]
pub(crate) open spec fn with_tilde_sends_escape(g: FeaturesView, x: bool) -> FeaturesView {
    FeaturesView { layout: LayoutView { tilde_sends_escape: x, ..g.layout }, ..g }
}

/// `tilde-sends-escape=`: the saved value reads back.
pub(crate) proof fn lemma_line_tilde_sends_escape(model: Model, g: FeaturesView, x: bool)
    ensures
        key_ok("tilde-sends-escape"@),
        clean(flag_text(x)),
        apply_setting(model, g, "tilde-sends-escape"@, flag_text(x)) == with_tilde_sends_escape(g, x),
{
    reveal(clean);
    reveal(key_ok);
    reveal(apply_setting);
    reveal(with_tilde_sends_escape);
    reveal(crate::setup::read::set_tilde_sends_escape);
    reveal_strlit("tilde-sends-escape");
    lemma_names();
    lemma_flag(x);
}

/// The value saved for `keyboard`.
#[verifier::opaque]
pub(crate) open spec fn val_keyboard_language(x: Option<Nrc>) -> Seq<char> {
    dec(dialect_index(x))
}

/// `g` with `keyboard_language` set to `x`.
#[verifier::opaque]
pub(crate) open spec fn with_keyboard_language(g: FeaturesView, x: Option<Nrc>) -> FeaturesView {
    FeaturesView { layout: LayoutView { keyboard_language: x, ..g.layout }, ..g }
}

/// `keyboard=`: the saved value reads back.
pub(crate) proof fn lemma_line_keyboard_language(model: Model, g: FeaturesView, x: Option<Nrc>)
    ensures
        key_ok("keyboard"@),
        clean(val_keyboard_language(x)),
        apply_setting(model, g, "keyboard"@, val_keyboard_language(x)) == with_keyboard_language(g, x),
{
    reveal(clean);
    reveal(key_ok);
    reveal(val_keyboard_language);
    reveal(apply_setting);
    reveal(with_keyboard_language);
    reveal(crate::setup::read::set_keyboard);
    reveal_strlit("keyboard");
    lemma_names();
    lemma_dialect_index(x);
    lemma_parse_dec(dialect_index(x), usize::MAX as nat);
    lemma_dec_clean(dialect_index(x));
}

/// The value saved for `tabs`.
#[verifier::opaque]
pub(crate) open spec fn val_tabs(x: Seq<bool>) -> Seq<char> {
    tabs_text(x)
}

/// `g` with `tabs` set to `x`.
#[verifier::opaque]
pub(crate) open spec fn with_tabs(g: FeaturesView, x: Seq<bool>) -> FeaturesView {
    FeaturesView { layout: LayoutView { tabs: x, ..g.layout }, ..g }
}

/// `tabs=`: the saved value reads back.
pub(crate) proof fn lemma_line_tabs(model: Model, g: FeaturesView, x: Seq<bool>)
    requires
        x.len() == (if g.display.columns_132 { 132nat } else { 80nat }),
        x.len() > 0 ==> !x[0],
    ensures
        key_ok("tabs"@),
        clean(val_tabs(x)),
        apply_setting(model, g, "tabs"@, val_tabs(x)) == with_tabs(g, x),
{
    reveal(clean);
    reveal(key_ok);
    reveal(val_tabs);
    reveal(apply_setting);
    reveal(with_tabs);
    reveal(crate::setup::read::set_tabs);
    reveal_strlit("tabs");
    lemma_names();
    lemma_tabs_round_trip(x);
    lemma_tabs_clean(x);
}

} // verus!
