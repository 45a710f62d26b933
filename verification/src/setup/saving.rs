//! Saved features read back: [`Features::from_text`] over
//! [`Features::to_text`] gives the features again, for every set of
//! features that Set-Up can hold.

use vstd::prelude::*;
use crate::config::{max_level, Model, StatusDisplay};
use crate::setup::lines;
use crate::setup::read::{
    settle, apply_line, apply_lines, apply_setting, features_from_text, first_named, level_modes, mode_named, strip_cr,
    tabs_fold, tabs_from, terminal_modes, text_lines,
};
use crate::setup::text::{
    break_name, compose_name, cursor_style_name, features_text, flag_text, keys_text, line, mode_name,
    saved_part1, saved_part2, saved_part3, saved_part4, saved_part5, saved_part6, saved_part7, saved_part8,
    saved_part9, scroll_name, status_name, tabs_text, upss_name, volume_name,
};
use crate::setup::{
    dialect_index, factory_view, page_length_offered, parity_name, saver_minutes_offered, screen_lines_offered,
    speed_offered, terminal_id_offered, terminal_mode_offered, DisplayView, FeaturesView, GeneralView, GlobalView,
    KeysView, LayoutView, LineView, ModemView, ScreenView, TerminalMode,
};
use crate::text::{
    all_digits, dec, digits_value, find_c, hex_text, is_digit, is_white, lemma_dec_digits, lemma_find_c,
    lemma_parse_dec, parse_uint, split_c, trim_c, trim_end_c, trim_start_c,
};

verus! {

/// No line end in `s`.
#[verifier::opaque]
pub open spec fn clean(s: Seq<char>) -> bool {
    forall|i: int| 0 <= i < s.len() ==> #[trigger] s[i] != '\n' && s[i] != '\r'
}

/// A name of a saved line: not empty, no white space, `=` or line end.
#[verifier::opaque]
pub open spec fn key_ok(k: Seq<char>) -> bool {
    k.len() > 0 && forall|i: int| 0 <= i < k.len() ==> !is_white(#[trigger] k[i]) && k[i] != '=' && k[i] != '\n'
}

proof fn lemma_find_c_concat(a: Seq<char>, b: Seq<char>, c: char)
    ensures
        find_c(a + b, c) == (if find_c(a, c) >= 0 {
            find_c(a, c)
        } else if find_c(b, c) >= 0 {
            a.len() + find_c(b, c)
        } else {
            -1
        }),
    decreases a.len(),
{
    if a.len() == 0 {
        assert(a + b =~= b);
    } else {
        assert((a + b)[0] == a[0]);
        assert((a + b).drop_first() =~= a.drop_first() + b);
        lemma_find_c_concat(a.drop_first(), b, c);
    }
}

pub(crate) proof fn lemma_clean_concat(a: Seq<char>, b: Seq<char>)
    requires
        clean(a),
        clean(b),
    ensures
        clean(a + b),
{
    reveal(clean);
    assert forall|i: int| 0 <= i < (a + b).len() implies #[trigger] (a + b)[i] != '\n' && (a + b)[i] != '\r' by {
        if i < a.len() {
            assert((a + b)[i] == a[i]);
        } else {
            assert((a + b)[i] == b[i - a.len()]);
        }
    }
}

/// The decimal form of a number has no line end.
pub(crate) proof fn lemma_dec_clean(n: nat)
    ensures
        clean(dec(n)),
{
    reveal(clean);
    lemma_dec_digits(n);
    assert forall|i: int| 0 <= i < dec(n).len() implies #[trigger] dec(n)[i] != '\n' && dec(n)[i] != '\r' by {
        assert(is_digit(dec(n)[i]));
    }
}

/// A line added to text that ends at a line end is its next line.
proof fn lemma_text_lines_line(s: Seq<char>, x: Seq<char>)
    requires
        s.len() == 0 || s.last() == '\n',
        clean(x),
    ensures
        text_lines(s + (x + seq!['\n'])) == text_lines(s).push(x),
    decreases s.len(),
{
    reveal(clean);
    let y = x + seq!['\n'];
    lemma_find_c(x, '\n');
    assert(find_c(seq!['\n'], '\n') == 0);
    lemma_find_c_concat(x, seq!['\n'], '\n');
    assert(find_c(x, '\n') < 0) by {
        if find_c(x, '\n') >= 0 {
            assert(x[find_c(x, '\n')] == '\n');
        }
    }
    assert(find_c(y, '\n') == x.len());
    assert(y.subrange(0, x.len() as int) =~= x);
    assert(y.subrange(x.len() as int + 1, y.len() as int) =~= Seq::<char>::empty());
    assert(strip_cr(x) == x) by {
        if x.len() > 0 {
            assert(x.last() == x[x.len() - 1]);
        }
    }
    if s.len() == 0 {
        assert(s + y =~= y);
        assert(text_lines(Seq::<char>::empty()) =~= Seq::<Seq<char>>::empty());
        assert(text_lines(y) == seq![x] + text_lines(Seq::<char>::empty()));
        assert(text_lines(s).push(x) =~= seq![x] + Seq::<Seq<char>>::empty());
    } else {
        lemma_find_c(s, '\n');
        let i = find_c(s, '\n');
        assert(i >= 0) by {
            if i < 0 {
                assert(s[s.len() - 1] == '\n');
            }
        }
        lemma_find_c_concat(s, y, '\n');
        let rest = s.subrange(i + 1, s.len() as int);
        assert((s + y).subrange(0, i) =~= s.subrange(0, i));
        assert((s + y).subrange(i + 1, (s + y).len() as int) =~= rest + y);
        assert(rest.len() == 0 || rest.last() == '\n') by {
            if rest.len() > 0 {
                assert(rest.last() == s.last());
            }
        }
        lemma_text_lines_line(rest, x);
        assert(text_lines(s) == seq![strip_cr(s.subrange(0, i))] + text_lines(rest));
        assert(text_lines(s + y) == seq![strip_cr(s.subrange(0, i))] + text_lines(rest + y));
        assert(seq![strip_cr(s.subrange(0, i))] + text_lines(rest).push(x) =~= (seq![strip_cr(s.subrange(0, i))]
            + text_lines(rest)).push(x));
    }
}

/// The lines after one more line.
proof fn lemma_apply_lines_push(model: Model, g: crate::setup::FeaturesView, ls: Seq<Seq<char>>, x: Seq<char>)
    ensures
        apply_lines(model, g, ls.push(x)) == apply_line(model, apply_lines(model, g, ls), x),
    decreases ls.len(),
{
    let lx = ls.push(x);
    if ls.len() == 0 {
        assert(lx.drop_first() =~= Seq::<Seq<char>>::empty());
        assert(lx[0] == x);
        assert(apply_lines(model, apply_line(model, g, x), lx.drop_first()) == apply_line(model, g, x));
        assert(apply_lines(model, g, lx) == apply_lines(model, apply_line(model, g, lx[0]), lx.drop_first()));
    } else {
        assert(lx[0] == ls[0]);
        assert(lx.drop_first() =~= ls.drop_first().push(x));
        lemma_apply_lines_push(model, apply_line(model, g, ls[0]), ls.drop_first(), x);
        assert(apply_lines(model, g, lx) == apply_lines(model, apply_line(model, g, lx[0]), lx.drop_first()));
        assert(apply_lines(model, g, ls) == apply_lines(model, apply_line(model, g, ls[0]), ls.drop_first()));
    }
}

/// A `name=value` line applies the setting.
proof fn lemma_apply_line_kv(model: Model, g: crate::setup::FeaturesView, k: Seq<char>, v: Seq<char>)
    requires
        key_ok(k),
    ensures
        apply_line(model, g, k + seq!['='] + v) == crate::setup::read::apply_setting(model, g, k, v),
{
    reveal(key_ok);
    let l = k + seq!['='] + v;
    lemma_find_c(k, '=');
    assert(find_c(k, '=') < 0) by {
        if find_c(k, '=') >= 0 {
            assert(k[find_c(k, '=')] == '=');
        }
    }
    lemma_find_c_concat(k, seq!['='], '=');
    assert(find_c(seq!['='], '=') == 0);
    lemma_find_c_concat(k + seq!['='], v, '=');
    assert(find_c(l, '=') == k.len());
    assert(l.subrange(0, k.len() as int) =~= k);
    assert(l.subrange(k.len() as int + 1, l.len() as int) =~= v);
    assert(trim_start_c(k) == k) by {
        assert(!is_white(k[0]));
    }
    assert(trim_end_c(k) == k) by {
        assert(!is_white(k[k.len() - 1]));
        assert(k.last() == k[k.len() - 1]);
    }
}

/// One tab stop piece read: a column from 2 to the width sets its stop.
pub open spec fn tab_step(t: Seq<bool>, p: Seq<char>) -> Seq<bool> {
    match parse_uint(p, usize::MAX as nat) {
        Some(n) => if 2 <= n <= t.len() { t.update(n - 1, true) } else { t },
        None => t,
    }
}

proof fn lemma_tabs_fold_push(t: Seq<bool>, ps: Seq<Seq<char>>, p: Seq<char>)
    ensures
        tabs_fold(t, ps.push(p)) == tab_step(tabs_fold(t, ps), p),
    decreases ps.len(),
{
    let pp = ps.push(p);
    if ps.len() == 0 {
        assert(pp.drop_first() =~= Seq::<Seq<char>>::empty());
        assert(pp[0] == p);
        assert(tabs_fold(tab_step(t, p), pp.drop_first()) == tab_step(t, p));
        assert(tabs_fold(t, pp) == tabs_fold(tab_step(t, pp[0]), pp.drop_first()));
    } else {
        assert(pp[0] == ps[0]);
        assert(pp.drop_first() =~= ps.drop_first().push(p));
        lemma_tabs_fold_push(tab_step(t, ps[0]), ps.drop_first(), p);
        assert(tabs_fold(t, pp) == tabs_fold(tab_step(t, pp[0]), pp.drop_first()));
        assert(tabs_fold(t, ps) == tabs_fold(tab_step(t, ps[0]), ps.drop_first()));
    }
}

/// No comma in the decimal form of a number.
proof fn lemma_dec_no_comma(n: nat)
    ensures
        find_c(dec(n), ',') < 0,
{
    lemma_dec_digits(n);
    lemma_find_c(dec(n), ',');
    if find_c(dec(n), ',') >= 0 {
        assert(is_digit(dec(n)[find_c(dec(n), ',')]));
    }
}

/// Splitting at commas after one more comma-separated piece.
proof fn lemma_split_push(r: Seq<char>, d: Seq<char>)
    requires
        find_c(d, ',') < 0,
    ensures
        split_c(r + seq![','] + d, ',') == split_c(r, ',').push(d),
    decreases r.len(),
{
    let x = r + seq![','] + d;
    lemma_find_c(r, ',');
    lemma_find_c_concat(r, seq![','], ',');
    assert(find_c(seq![','], ',') == 0);
    lemma_find_c_concat(r + seq![','], d, ',');
    let i = find_c(r, ',');
    if i < 0 {
        assert(find_c(x, ',') == r.len());
        assert(x.subrange(0, r.len() as int) =~= r);
        assert(x.subrange(r.len() as int + 1, x.len() as int) =~= d);
        assert(split_c(d, ',') == seq![d]);
        assert(split_c(r, ',') == seq![r]);
        assert(seq![r] + seq![d] =~= seq![r].push(d));
    } else {
        assert(find_c(x, ',') == i);
        let rest = r.subrange(i + 1, r.len() as int);
        assert(x.subrange(0, i) =~= r.subrange(0, i));
        assert(x.subrange(i + 1, x.len() as int) =~= rest + seq![','] + d);
        lemma_split_push(rest, d);
        assert(split_c(r, ',') == seq![r.subrange(0, i)] + split_c(rest, ','));
        assert(seq![r.subrange(0, i)] + split_c(rest, ',').push(d) =~= (seq![r.subrange(0, i)] + split_c(
            rest,
            ',',
        )).push(d));
    }
}

/// The saved tab stops are empty exactly when no stop is set.
proof fn lemma_tabs_text_empty(t: Seq<bool>)
    ensures
        (tabs_text(t).len() == 0) == (forall|i: int| 0 <= i < t.len() ==> !#[trigger] t[i]),
    decreases t.len(),
{
    if t.len() > 0 {
        let d = t.drop_last();
        lemma_tabs_text_empty(d);
        lemma_dec_digits(t.len());
        if t.last() {
            assert(t[t.len() - 1]);
        } else {
            assert forall|i: int| 0 <= i < t.len() && (forall|j: int| 0 <= j < d.len() ==> !#[trigger] d[j]) implies !#[trigger] t[i] by {
                if i < d.len() {
                    assert(t[i] == d[i]);
                }
            }
            assert forall|i: int| 0 <= i < d.len() && (forall|j: int| 0 <= j < t.len() ==> !#[trigger] t[j]) implies !#[trigger] d[i] by {
                assert(t[i] == d[i]);
            }
        }
    }
}

/// Reading the stops saved from the first `k` positions sets those stops.
proof fn lemma_tabs_prefix(t: Seq<bool>, k: nat)
    requires
        k <= t.len(),
        t.len() <= 132,
        t.len() > 0 ==> !t[0],
    ensures
        tabs_fold(Seq::new(t.len(), |i: int| false), split_c(tabs_text(t.subrange(0, k as int)), ','))
            == Seq::new(t.len(), |i: int| i < k && t[i]),
    decreases k,
{
    let base = Seq::new(t.len(), |i: int| false);
    let tk = t.subrange(0, k as int);
    if k == 0 {
        assert(tk =~= Seq::<bool>::empty());
        let e = Seq::<char>::empty();
        assert(tabs_text(tk) == e);
        assert(split_c(e, ',') == seq![e]);
        assert(parse_uint(e, usize::MAX as nat) is None);
        let ps = seq![e];
        assert(ps.drop_first() =~= Seq::<Seq<char>>::empty());
        assert(tabs_fold(base, ps) == tabs_fold(tab_step(base, e), ps.drop_first()));
        assert(base =~= Seq::new(t.len(), |i: int| i < 0 && t[i]));
    } else {
        let j = (k - 1) as nat;
        lemma_tabs_prefix(t, j);
        let tj = t.subrange(0, j as int);
        assert(tk.drop_last() =~= tj);
        assert(tk.last() == t[j as int]);
        let r = tabs_text(tj);
        let fj = Seq::new(t.len(), |i: int| i < j && t[i]);
        let fk = Seq::new(t.len(), |i: int| i < k && t[i]);
        if t[j as int] {
            let d = dec(k);
            lemma_parse_dec(k, usize::MAX as nat);
            lemma_dec_no_comma(k);
            assert(j >= 1) by {
                if j == 0 {
                    assert(!t[0]);
                }
            }
            assert(fk =~= fj.update(j as int, true));
            if r.len() == 0 {
                lemma_tabs_text_empty(tj);
                assert(fj =~= base) by {
                    assert forall|i: int| 0 <= i < t.len() implies fj[i] == base[i] by {
                        if i < j {
                            assert(tj[i] == t[i]);
                        }
                    }
                }
                assert(tabs_text(tk) == d);
                lemma_find_c(d, ',');
                assert(split_c(d, ',') == seq![d]);
                let ps = seq![d];
                assert(ps.drop_first() =~= Seq::<Seq<char>>::empty());
                assert(tabs_fold(base, ps) == tabs_fold(tab_step(base, d), ps.drop_first()));
            } else {
                assert(tabs_text(tk) == r + seq![','] + d);
                lemma_split_push(r, d);
                lemma_tabs_fold_push(base, split_c(r, ','), d);
            }
        } else {
            assert(tabs_text(tk) == r);
            assert(fk =~= fj);
        }
    }
}

/// Saved tab stops read back over a line of the same width.
pub(crate) proof fn lemma_tabs_round_trip(t: Seq<bool>)
    requires
        t.len() <= 132,
        t.len() > 0 ==> !t[0],
    ensures
        tabs_from(t.len(), tabs_text(t)) == t,
{
    lemma_tabs_prefix(t, t.len());
    assert(t.subrange(0, t.len() as int) =~= t);
    assert(Seq::new(t.len(), |i: int| i < t.len() && t[i]) =~= t);
}

/// Numbers have different decimal forms.
proof fn lemma_dec_injective(a: nat, b: nat)
    requires
        dec(a) == dec(b),
    ensures
        a == b,
{
    lemma_dec_digits(a);
    lemma_dec_digits(b);
}

/// Operating levels have different saved names.
proof fn lemma_mode_name_injective(a: TerminalMode, b: TerminalMode)
    requires
        mode_name(a) == mode_name(b),
    ensures
        a == b,
{
    reveal_strlit("vt52");
    reveal_strlit("vt100");
    reveal_strlit("level");
    reveal_strlit("-");
    reveal_strlit("7");
    reveal_strlit("8");
    reveal_strlit("bit");
    assert("vt52"@ =~= seq!['v', 't', '5', '2']);
    assert("vt100"@ =~= seq!['v', 't', '1', '0', '0']);
    assert("level"@ =~= seq!['l', 'e', 'v', 'e', 'l']);
    assert("-"@ =~= seq!['-']);
    assert("7"@ =~= seq!['7']);
    assert("8"@ =~= seq!['8']);
    assert("bit"@ =~= seq!['b', 'i', 't']);
    match (a, b) {
        (TerminalMode::Level { level: l1, eight_bit: e1 }, TerminalMode::Level { level: l2, eight_bit: e2 }) => {
            let d1 = dec(l1 as nat);
            let d2 = dec(l2 as nat);
            let c1 = if e1 { "8"@ } else { "7"@ };
            let c2 = if e2 { "8"@ } else { "7"@ };
            let s1 = "level"@ + d1 + "-"@ + c1 + "bit"@;
            let s2 = "level"@ + d2 + "-"@ + c2 + "bit"@;
            assert(s1 == mode_name(a));
            assert(s2 == mode_name(b));
            assert(d1.len() == d2.len());
            assert(s1.subrange(5, 5 + d1.len() as int) =~= d1);
            assert(s2.subrange(5, 5 + d2.len() as int) =~= d2);
            lemma_dec_injective(l1 as nat, l2 as nat);
            assert(s1[5 + d1.len() as int + 1] == c1[0]);
            assert(s2[5 + d2.len() as int + 1] == c2[0]);
        },
        (TerminalMode::Level { .. }, _) => {
            assert(mode_name(a)[0] == 'l');
        },
        (_, TerminalMode::Level { .. }) => {
            assert(mode_name(b)[0] == 'l');
        },
        _ => {},
    }
}

proof fn lemma_level_modes_contains(l: u8, level: u8, e: bool)
    requires
        2 <= level <= l,
    ensures
        level_modes(l).contains(TerminalMode::Level { level, eight_bit: e }),
    decreases l,
{
    let m = TerminalMode::Level { level, eight_bit: e };
    let head = seq![TerminalMode::Level { level: l, eight_bit: false }, TerminalMode::Level { level: l, eight_bit: true }];
    let s = head + level_modes((l - 1) as u8);
    assert(level_modes(l) == s);
    if level == l {
        if e {
            assert(s[1] == m);
        } else {
            assert(s[0] == m);
        }
    } else {
        lemma_level_modes_contains((l - 1) as u8, level, e);
        let prev = level_modes((l - 1) as u8);
        let k = choose|k: int| 0 <= k < prev.len() && prev[k] == m;
        assert(s[k + 2] == m);
    }
}

proof fn lemma_first_named(ms: Seq<TerminalMode>, tm: TerminalMode)
    requires
        ms.contains(tm),
    ensures
        first_named(ms, mode_name(tm)) == Some(tm),
    decreases ms.len(),
{
    if ms[0] != tm {
        if mode_name(ms[0]) == mode_name(tm) {
            lemma_mode_name_injective(ms[0], tm);
        }
        let k = choose|k: int| 0 <= k < ms.len() && ms[k] == tm;
        assert(ms.drop_first()[k - 1] == tm);
        lemma_first_named(ms.drop_first(), tm);
    }
}

/// An operating level a model offers reads back from its saved name.
pub(crate) proof fn lemma_mode_round_trip(model: Model, tm: TerminalMode)
    requires
        crate::setup::terminal_mode_offered(model, tm),
    ensures
        mode_named(model, mode_name(tm)) == Some(tm),
        clean(mode_name(tm)),
{
    reveal(clean);
    let ms = terminal_modes(model);
    let lm = level_modes(max_level(model));
    match tm {
        TerminalMode::Level { level, eight_bit } => {
            lemma_level_modes_contains(max_level(model), level, eight_bit);
            let k = choose|k: int| 0 <= k < lm.len() && lm[k] == tm;
            assert(ms[k] == tm);
        },
        TerminalMode::Vt100 => {
            assert(ms[lm.len() as int] == tm);
        },
        TerminalMode::Vt52 => {
            assert(ms[lm.len() as int + 1] == tm);
        },
    }
    lemma_first_named(ms, tm);
    reveal_strlit("vt52");
    reveal_strlit("vt100");
    reveal_strlit("level");
    reveal_strlit("-");
    reveal_strlit("7");
    reveal_strlit("8");
    reveal_strlit("bit");
    assert("vt52"@ =~= seq!['v', 't', '5', '2']);
    assert("vt100"@ =~= seq!['v', 't', '1', '0', '0']);
    assert("level"@ =~= seq!['l', 'e', 'v', 'e', 'l']);
    assert("-"@ =~= seq!['-']);
    assert("7"@ =~= seq!['7']);
    assert("8"@ =~= seq!['8']);
    assert("bit"@ =~= seq!['b', 'i', 't']);
    match tm {
        TerminalMode::Level { level, eight_bit } => {
            lemma_dec_clean(level as nat);
            let c = if eight_bit { "8"@ } else { "7"@ };
            lemma_clean_concat("level"@, dec(level as nat));
            lemma_clean_concat("level"@ + dec(level as nat), "-"@);
            lemma_clean_concat("level"@ + dec(level as nat) + "-"@, c);
            lemma_clean_concat("level"@ + dec(level as nat) + "-"@ + c, "bit"@);
        },
        _ => {},
    }
}

/// The first half of lines 1 after `s`.
spec fn saved_part1_a(s: Seq<char>, f: FeaturesView) -> Seq<char> {
    s
        + line("on-line"@, flag_text(f.global.on_line))
        + line("crt-saver"@, flag_text(f.global.crt_saver))
        + line("comm1-dec423"@, flag_text(f.global.comm1_dec423))
        + line("refresh-60hz"@, flag_text(f.global.refresh_60hz))
}

/// `g` with the features that the first half of lines 1 carry taken from `f`.
#[verifier::opaque]
spec fn merge_part1_a(g: FeaturesView, f: FeaturesView) -> FeaturesView {
    FeaturesView {
        global: GlobalView {
            on_line: f.global.on_line,
            crt_saver: f.global.crt_saver,
            comm1_dec423: f.global.comm1_dec423,
            refresh_60hz: f.global.refresh_60hz,
            ..g.global
        },
        ..g
    }
}

/// What [`merge_part1_a`] keeps and what it sets, group by group.
proof fn lemma_frame_merge_part1_a(g: FeaturesView, f: FeaturesView)
    ensures
        merge_part1_a(g, f).global == (GlobalView { on_line: f.global.on_line, crt_saver: f.global.crt_saver, comm1_dec423: f.global.comm1_dec423, refresh_60hz: f.global.refresh_60hz, ..g.global }),
        merge_part1_a(g, f).display == g.display,
        merge_part1_a(g, f).screen == g.screen,
        merge_part1_a(g, f).general == g.general,
        merge_part1_a(g, f).line == g.line,
        merge_part1_a(g, f).modem == g.modem,
        merge_part1_a(g, f).keys == g.keys,
        merge_part1_a(g, f).layout == g.layout,
{
    reveal(merge_part1_a);
}

/// Setting the features one at a time gives [`merge_part1_a`].
proof fn lemma_merge_part1_a(g: FeaturesView, f: FeaturesView)
    ensures
        lines::with_refresh_60hz(lines::with_comm1_dec423(lines::with_crt_saver(lines::with_on_line(g, f.global.on_line), f.global.crt_saver), f.global.comm1_dec423), f.global.refresh_60hz) == merge_part1_a(g, f),
{
    reveal(merge_part1_a);
    reveal(lines::with_on_line);
    reveal(lines::with_crt_saver);
    reveal(lines::with_comm1_dec423);
    reveal(lines::with_refresh_60hz);
}

/// The first half of lines 1, read after the lines before them.
#[verifier::spinoff_prover]
proof fn lemma_part1_a(model: Model, h: FeaturesView, s: Seq<char>, f: FeaturesView, g: FeaturesView)
    requires
        at_line_start(s),
        read_after(model, h, s) == g,
    ensures
        at_line_start(saved_part1_a(s, f)),
        read_after(model, h, saved_part1_a(s, f)) == merge_part1_a(g, f),
{
    let s0 = s;
    let g0 = g;
    lines::lemma_line_on_line(model, g0, f.global.on_line);
    lemma_step(model, h, s0, "on-line"@, flag_text(f.global.on_line));
    let s1 = s0 + line("on-line"@, flag_text(f.global.on_line));
    let g1 = lines::with_on_line(g0, f.global.on_line);
    lines::lemma_line_crt_saver(model, g1, f.global.crt_saver);
    lemma_step(model, h, s1, "crt-saver"@, flag_text(f.global.crt_saver));
    let s2 = s1 + line("crt-saver"@, flag_text(f.global.crt_saver));
    let g2 = lines::with_crt_saver(g1, f.global.crt_saver);
    lines::lemma_line_comm1_dec423(model, g2, f.global.comm1_dec423);
    lemma_step(model, h, s2, "comm1-dec423"@, flag_text(f.global.comm1_dec423));
    let s3 = s2 + line("comm1-dec423"@, flag_text(f.global.comm1_dec423));
    let g3 = lines::with_comm1_dec423(g2, f.global.comm1_dec423);
    lines::lemma_line_refresh_60hz(model, g3, f.global.refresh_60hz);
    lemma_step(model, h, s3, "refresh-60hz"@, flag_text(f.global.refresh_60hz));
    let s4 = s3 + line("refresh-60hz"@, flag_text(f.global.refresh_60hz));
    let g4 = lines::with_refresh_60hz(g3, f.global.refresh_60hz);
    lemma_merge_part1_a(g, f);
}

/// The second half of lines 1 after `s`.
spec fn saved_part1_b(s: Seq<char>, f: FeaturesView) -> Seq<char> {
    s
        + line("printer-session"@, lines::val_printer_session(f.global.printer_session))
        + line("columns"@, lines::val_columns_132(f.display.columns_132))
        + line("display-controls"@, flag_text(f.display.display_controls))
        + line("autowrap"@, flag_text(f.display.autowrap))
}

/// `g` with the features that the second half of lines 1 carry taken from `f`.
#[verifier::opaque]
spec fn merge_part1_b(g: FeaturesView, f: FeaturesView) -> FeaturesView {
    FeaturesView {
        global: GlobalView {
            printer_session: f.global.printer_session,
            ..g.global
        },
        display: DisplayView {
            columns_132: f.display.columns_132,
            display_controls: f.display.display_controls,
            autowrap: f.display.autowrap,
            ..g.display
        },
        ..g
    }
}

/// What [`merge_part1_b`] keeps and what it sets, group by group.
proof fn lemma_frame_merge_part1_b(g: FeaturesView, f: FeaturesView)
    ensures
        merge_part1_b(g, f).global == (GlobalView { printer_session: f.global.printer_session, ..g.global }),
        merge_part1_b(g, f).display == (DisplayView { columns_132: f.display.columns_132, display_controls: f.display.display_controls, autowrap: f.display.autowrap, ..g.display }),
        merge_part1_b(g, f).screen == g.screen,
        merge_part1_b(g, f).general == g.general,
        merge_part1_b(g, f).line == g.line,
        merge_part1_b(g, f).modem == g.modem,
        merge_part1_b(g, f).keys == g.keys,
        merge_part1_b(g, f).layout == g.layout,
{
    reveal(merge_part1_b);
}

/// Setting the features one at a time gives [`merge_part1_b`].
proof fn lemma_merge_part1_b(g: FeaturesView, f: FeaturesView)
    ensures
        lines::with_autowrap(lines::with_display_controls(lines::with_columns_132(lines::with_printer_session(g, f.global.printer_session), f.display.columns_132), f.display.display_controls), f.display.autowrap) == merge_part1_b(g, f),
{
    reveal(merge_part1_b);
    reveal(lines::with_printer_session);
    reveal(lines::with_columns_132);
    reveal(lines::with_display_controls);
    reveal(lines::with_autowrap);
}

/// The second half of lines 1, read after the lines before them.
#[verifier::spinoff_prover]
proof fn lemma_part1_b(model: Model, h: FeaturesView, s: Seq<char>, f: FeaturesView, g: FeaturesView)
    requires
        at_line_start(s),
        read_after(model, h, s) == g,
        f.global.printer_session <= 2,
    ensures
        at_line_start(saved_part1_b(s, f)),
        read_after(model, h, saved_part1_b(s, f)) == merge_part1_b(g, f),
{
    let s0 = s;
    let g0 = g;
    lines::lemma_line_printer_session(model, g0, f.global.printer_session);
    lemma_step(model, h, s0, "printer-session"@, lines::val_printer_session(f.global.printer_session));
    let s1 = s0 + line("printer-session"@, lines::val_printer_session(f.global.printer_session));
    let g1 = lines::with_printer_session(g0, f.global.printer_session);
    lines::lemma_line_columns_132(model, g1, f.display.columns_132);
    lemma_step(model, h, s1, "columns"@, lines::val_columns_132(f.display.columns_132));
    let s2 = s1 + line("columns"@, lines::val_columns_132(f.display.columns_132));
    let g2 = lines::with_columns_132(g1, f.display.columns_132);
    lines::lemma_line_display_controls(model, g2, f.display.display_controls);
    lemma_step(model, h, s2, "display-controls"@, flag_text(f.display.display_controls));
    let s3 = s2 + line("display-controls"@, flag_text(f.display.display_controls));
    let g3 = lines::with_display_controls(g2, f.display.display_controls);
    lines::lemma_line_autowrap(model, g3, f.display.autowrap);
    lemma_step(model, h, s3, "autowrap"@, flag_text(f.display.autowrap));
    let s4 = s3 + line("autowrap"@, flag_text(f.display.autowrap));
    let g4 = lines::with_autowrap(g3, f.display.autowrap);
    lemma_merge_part1_b(g, f);
}

/// The first half of lines 2 after `s`.
spec fn saved_part2_a(s: Seq<char>, f: FeaturesView) -> Seq<char> {
    s
        + line("scroll"@, lines::val_scroll(f.display.scroll))
        + line("light-screen"@, flag_text(f.display.light_screen))
        + line("cursor"@, flag_text(f.display.cursor))
        + line("cursor-style"@, lines::val_cursor_style(f.display.cursor_style))
}

/// `g` with the features that the first half of lines 2 carry taken from `f`.
#[verifier::opaque]
spec fn merge_part2_a(g: FeaturesView, f: FeaturesView) -> FeaturesView {
    FeaturesView {
        display: DisplayView {
            scroll: f.display.scroll,
            light_screen: f.display.light_screen,
            cursor: f.display.cursor,
            cursor_style: f.display.cursor_style,
            ..g.display
        },
        ..g
    }
}

/// What [`merge_part2_a`] keeps and what it sets, group by group.
proof fn lemma_frame_merge_part2_a(g: FeaturesView, f: FeaturesView)
    ensures
        merge_part2_a(g, f).global == g.global,
        merge_part2_a(g, f).display == (DisplayView { scroll: f.display.scroll, light_screen: f.display.light_screen, cursor: f.display.cursor, cursor_style: f.display.cursor_style, ..g.display }),
        merge_part2_a(g, f).screen == g.screen,
        merge_part2_a(g, f).general == g.general,
        merge_part2_a(g, f).line == g.line,
        merge_part2_a(g, f).modem == g.modem,
        merge_part2_a(g, f).keys == g.keys,
        merge_part2_a(g, f).layout == g.layout,
{
    reveal(merge_part2_a);
}

/// Setting the features one at a time gives [`merge_part2_a`].
proof fn lemma_merge_part2_a(g: FeaturesView, f: FeaturesView)
    ensures
        lines::with_cursor_style(lines::with_cursor(lines::with_light_screen(lines::with_scroll(g, f.display.scroll), f.display.light_screen), f.display.cursor), f.display.cursor_style) == merge_part2_a(g, f),
{
    reveal(merge_part2_a);
    reveal(lines::with_scroll);
    reveal(lines::with_light_screen);
    reveal(lines::with_cursor);
    reveal(lines::with_cursor_style);
}

/// The first half of lines 2, read after the lines before them.
#[verifier::spinoff_prover]
proof fn lemma_part2_a(model: Model, h: FeaturesView, s: Seq<char>, f: FeaturesView, g: FeaturesView)
    requires
        at_line_start(s),
        read_after(model, h, s) == g,
    ensures
        at_line_start(saved_part2_a(s, f)),
        read_after(model, h, saved_part2_a(s, f)) == merge_part2_a(g, f),
{
    let s0 = s;
    let g0 = g;
    lines::lemma_line_scroll(model, g0, f.display.scroll);
    lemma_step(model, h, s0, "scroll"@, lines::val_scroll(f.display.scroll));
    let s1 = s0 + line("scroll"@, lines::val_scroll(f.display.scroll));
    let g1 = lines::with_scroll(g0, f.display.scroll);
    lines::lemma_line_light_screen(model, g1, f.display.light_screen);
    lemma_step(model, h, s1, "light-screen"@, flag_text(f.display.light_screen));
    let s2 = s1 + line("light-screen"@, flag_text(f.display.light_screen));
    let g2 = lines::with_light_screen(g1, f.display.light_screen);
    lines::lemma_line_cursor(model, g2, f.display.cursor);
    lemma_step(model, h, s2, "cursor"@, flag_text(f.display.cursor));
    let s3 = s2 + line("cursor"@, flag_text(f.display.cursor));
    let g3 = lines::with_cursor(g2, f.display.cursor);
    lines::lemma_line_cursor_style(model, g3, f.display.cursor_style);
    lemma_step(model, h, s3, "cursor-style"@, lines::val_cursor_style(f.display.cursor_style));
    let s4 = s3 + line("cursor-style"@, lines::val_cursor_style(f.display.cursor_style));
    let g4 = lines::with_cursor_style(g3, f.display.cursor_style);
    lemma_merge_part2_a(g, f);
}

/// The second half of lines 2 after `s`.
spec fn saved_part2_b(s: Seq<char>, f: FeaturesView) -> Seq<char> {
    s
        + line("status"@, lines::val_status(f.display.status))
        + line("page-length"@, lines::val_page_length(f.display.page_length))
        + line("screen-lines"@, lines::val_screen_lines(f.screen.screen_lines))
        + line("vertical-coupling"@, flag_text(f.screen.vertical_coupling))
}

/// `g` with the features that the second half of lines 2 carry taken from `f`.
#[verifier::opaque]
spec fn merge_part2_b(g: FeaturesView, f: FeaturesView) -> FeaturesView {
    FeaturesView {
        display: DisplayView {
            status: f.display.status,
            page_length: f.display.page_length,
            ..g.display
        },
        screen: ScreenView {
            screen_lines: f.screen.screen_lines,
            vertical_coupling: f.screen.vertical_coupling,
            ..g.screen
        },
        ..g
    }
}

/// What [`merge_part2_b`] keeps and what it sets, group by group.
proof fn lemma_frame_merge_part2_b(g: FeaturesView, f: FeaturesView)
    ensures
        merge_part2_b(g, f).global == g.global,
        merge_part2_b(g, f).display == (DisplayView { status: f.display.status, page_length: f.display.page_length, ..g.display }),
        merge_part2_b(g, f).screen == (ScreenView { screen_lines: f.screen.screen_lines, vertical_coupling: f.screen.vertical_coupling, ..g.screen }),
        merge_part2_b(g, f).general == g.general,
        merge_part2_b(g, f).line == g.line,
        merge_part2_b(g, f).modem == g.modem,
        merge_part2_b(g, f).keys == g.keys,
        merge_part2_b(g, f).layout == g.layout,
{
    reveal(merge_part2_b);
}

/// Setting the features one at a time gives [`merge_part2_b`].
proof fn lemma_merge_part2_b(g: FeaturesView, f: FeaturesView)
    ensures
        lines::with_vertical_coupling(lines::with_screen_lines(lines::with_page_length(lines::with_status(g, f.display.status), f.display.page_length), f.screen.screen_lines), f.screen.vertical_coupling) == merge_part2_b(g, f),
{
    reveal(merge_part2_b);
    reveal(lines::with_status);
    reveal(lines::with_page_length);
    reveal(lines::with_screen_lines);
    reveal(lines::with_vertical_coupling);
}

/// The second half of lines 2, read after the lines before them.
#[verifier::spinoff_prover]
proof fn lemma_part2_b(model: Model, h: FeaturesView, s: Seq<char>, f: FeaturesView, g: FeaturesView)
    requires
        at_line_start(s),
        read_after(model, h, s) == g,
        max_level(model) < 3 ==> f.display.status == StatusDisplay::NoDisplay && g.display.status == StatusDisplay::NoDisplay,
        page_length_offered(model, f.display.page_length as nat),
        screen_lines_offered(f.screen.screen_lines as nat),
    ensures
        at_line_start(saved_part2_b(s, f)),
        read_after(model, h, saved_part2_b(s, f)) == merge_part2_b(g, f),
{
    let s0 = s;
    let g0 = g;
    lines::lemma_line_status(model, g0, f.display.status);
    lemma_step(model, h, s0, "status"@, lines::val_status(f.display.status));
    let s1 = s0 + line("status"@, lines::val_status(f.display.status));
    let g1 = lines::with_status(g0, f.display.status);
    lines::lemma_line_page_length(model, g1, f.display.page_length);
    lemma_step(model, h, s1, "page-length"@, lines::val_page_length(f.display.page_length));
    let s2 = s1 + line("page-length"@, lines::val_page_length(f.display.page_length));
    let g2 = lines::with_page_length(g1, f.display.page_length);
    lines::lemma_line_screen_lines(model, g2, f.screen.screen_lines);
    lemma_step(model, h, s2, "screen-lines"@, lines::val_screen_lines(f.screen.screen_lines));
    let s3 = s2 + line("screen-lines"@, lines::val_screen_lines(f.screen.screen_lines));
    let g3 = lines::with_screen_lines(g2, f.screen.screen_lines);
    lines::lemma_line_vertical_coupling(model, g3, f.screen.vertical_coupling);
    lemma_step(model, h, s3, "vertical-coupling"@, flag_text(f.screen.vertical_coupling));
    let s4 = s3 + line("vertical-coupling"@, flag_text(f.screen.vertical_coupling));
    let g4 = lines::with_vertical_coupling(g3, f.screen.vertical_coupling);
    lemma_merge_part2_b(g, f);
}

/// The first half of lines 3 after `s`.
spec fn saved_part3_a(s: Seq<char>, f: FeaturesView) -> Seq<char> {
    s
        + line("page-coupling"@, flag_text(f.screen.page_coupling))
        + line("auto-resize"@, flag_text(f.screen.auto_resize))
        + line("clear-on-column-change"@, flag_text(f.screen.clear_on_column_change))
        + line("zero-style"@, lines::val_zero_style(f.screen.zero_style))
}

/// `g` with the features that the first half of lines 3 carry taken from `f`.
#[verifier::opaque]
spec fn merge_part3_a(g: FeaturesView, f: FeaturesView) -> FeaturesView {
    FeaturesView {
        screen: ScreenView {
            page_coupling: f.screen.page_coupling,
            auto_resize: f.screen.auto_resize,
            clear_on_column_change: f.screen.clear_on_column_change,
            zero_style: f.screen.zero_style,
            ..g.screen
        },
        ..g
    }
}

/// What [`merge_part3_a`] keeps and what it sets, group by group.
proof fn lemma_frame_merge_part3_a(g: FeaturesView, f: FeaturesView)
    ensures
        merge_part3_a(g, f).global == g.global,
        merge_part3_a(g, f).display == g.display,
        merge_part3_a(g, f).screen == (ScreenView { page_coupling: f.screen.page_coupling, auto_resize: f.screen.auto_resize, clear_on_column_change: f.screen.clear_on_column_change, zero_style: f.screen.zero_style, ..g.screen }),
        merge_part3_a(g, f).general == g.general,
        merge_part3_a(g, f).line == g.line,
        merge_part3_a(g, f).modem == g.modem,
        merge_part3_a(g, f).keys == g.keys,
        merge_part3_a(g, f).layout == g.layout,
{
    reveal(merge_part3_a);
}

/// Setting the features one at a time gives [`merge_part3_a`].
proof fn lemma_merge_part3_a(g: FeaturesView, f: FeaturesView)
    ensures
        lines::with_zero_style(lines::with_clear_on_column_change(lines::with_auto_resize(lines::with_page_coupling(g, f.screen.page_coupling), f.screen.auto_resize), f.screen.clear_on_column_change), f.screen.zero_style) == merge_part3_a(g, f),
{
    reveal(merge_part3_a);
    reveal(lines::with_page_coupling);
    reveal(lines::with_auto_resize);
    reveal(lines::with_clear_on_column_change);
    reveal(lines::with_zero_style);
}

/// The first half of lines 3, read after the lines before them.
#[verifier::spinoff_prover]
proof fn lemma_part3_a(model: Model, h: FeaturesView, s: Seq<char>, f: FeaturesView, g: FeaturesView)
    requires
        at_line_start(s),
        read_after(model, h, s) == g,
        1 <= f.screen.zero_style <= 3,
    ensures
        at_line_start(saved_part3_a(s, f)),
        read_after(model, h, saved_part3_a(s, f)) == merge_part3_a(g, f),
{
    let s0 = s;
    let g0 = g;
    lines::lemma_line_page_coupling(model, g0, f.screen.page_coupling);
    lemma_step(model, h, s0, "page-coupling"@, flag_text(f.screen.page_coupling));
    let s1 = s0 + line("page-coupling"@, flag_text(f.screen.page_coupling));
    let g1 = lines::with_page_coupling(g0, f.screen.page_coupling);
    lines::lemma_line_auto_resize(model, g1, f.screen.auto_resize);
    lemma_step(model, h, s1, "auto-resize"@, flag_text(f.screen.auto_resize));
    let s2 = s1 + line("auto-resize"@, flag_text(f.screen.auto_resize));
    let g2 = lines::with_auto_resize(g1, f.screen.auto_resize);
    lines::lemma_line_clear_on_column_change(model, g2, f.screen.clear_on_column_change);
    lemma_step(model, h, s2, "clear-on-column-change"@, flag_text(f.screen.clear_on_column_change));
    let s3 = s2 + line("clear-on-column-change"@, flag_text(f.screen.clear_on_column_change));
    let g3 = lines::with_clear_on_column_change(g2, f.screen.clear_on_column_change);
    lines::lemma_line_zero_style(model, g3, f.screen.zero_style);
    lemma_step(model, h, s3, "zero-style"@, lines::val_zero_style(f.screen.zero_style));
    let s4 = s3 + line("zero-style"@, lines::val_zero_style(f.screen.zero_style));
    let g4 = lines::with_zero_style(g3, f.screen.zero_style);
    lemma_merge_part3_a(g, f);
}

/// The second half of lines 3 after `s`.
spec fn saved_part3_b(s: Seq<char>, f: FeaturesView) -> Seq<char> {
    s
        + line("crt-saver-minutes"@, lines::val_crt_saver_minutes(f.screen.crt_saver_minutes))
        + line("energy-saver-minutes"@, lines::val_energy_saver_minutes(f.screen.energy_saver_minutes))
        + line("host-wake-up"@, flag_text(f.screen.host_wake_up))
        + line("overscan"@, flag_text(f.screen.overscan))
}

/// `g` with the features that the second half of lines 3 carry taken from `f`.
#[verifier::opaque]
spec fn merge_part3_b(g: FeaturesView, f: FeaturesView) -> FeaturesView {
    FeaturesView {
        screen: ScreenView {
            crt_saver_minutes: f.screen.crt_saver_minutes,
            energy_saver_minutes: f.screen.energy_saver_minutes,
            host_wake_up: f.screen.host_wake_up,
            overscan: f.screen.overscan,
            ..g.screen
        },
        ..g
    }
}

/// What [`merge_part3_b`] keeps and what it sets, group by group.
proof fn lemma_frame_merge_part3_b(g: FeaturesView, f: FeaturesView)
    ensures
        merge_part3_b(g, f).global == g.global,
        merge_part3_b(g, f).display == g.display,
        merge_part3_b(g, f).screen == (ScreenView { crt_saver_minutes: f.screen.crt_saver_minutes, energy_saver_minutes: f.screen.energy_saver_minutes, host_wake_up: f.screen.host_wake_up, overscan: f.screen.overscan, ..g.screen }),
        merge_part3_b(g, f).general == g.general,
        merge_part3_b(g, f).line == g.line,
        merge_part3_b(g, f).modem == g.modem,
        merge_part3_b(g, f).keys == g.keys,
        merge_part3_b(g, f).layout == g.layout,
{
    reveal(merge_part3_b);
}

/// Setting the features one at a time gives [`merge_part3_b`].
proof fn lemma_merge_part3_b(g: FeaturesView, f: FeaturesView)
    ensures
        lines::with_overscan(lines::with_host_wake_up(lines::with_energy_saver_minutes(lines::with_crt_saver_minutes(g, f.screen.crt_saver_minutes), f.screen.energy_saver_minutes), f.screen.host_wake_up), f.screen.overscan) == merge_part3_b(g, f),
{
    reveal(merge_part3_b);
    reveal(lines::with_crt_saver_minutes);
    reveal(lines::with_energy_saver_minutes);
    reveal(lines::with_host_wake_up);
    reveal(lines::with_overscan);
}

/// The second half of lines 3, read after the lines before them.
#[verifier::spinoff_prover]
proof fn lemma_part3_b(model: Model, h: FeaturesView, s: Seq<char>, f: FeaturesView, g: FeaturesView)
    requires
        at_line_start(s),
        read_after(model, h, s) == g,
        saver_minutes_offered(f.screen.crt_saver_minutes as nat),
        saver_minutes_offered(f.screen.energy_saver_minutes as nat),
    ensures
        at_line_start(saved_part3_b(s, f)),
        read_after(model, h, saved_part3_b(s, f)) == merge_part3_b(g, f),
{
    let s0 = s;
    let g0 = g;
    lines::lemma_line_crt_saver_minutes(model, g0, f.screen.crt_saver_minutes);
    lemma_step(model, h, s0, "crt-saver-minutes"@, lines::val_crt_saver_minutes(f.screen.crt_saver_minutes));
    let s1 = s0 + line("crt-saver-minutes"@, lines::val_crt_saver_minutes(f.screen.crt_saver_minutes));
    let g1 = lines::with_crt_saver_minutes(g0, f.screen.crt_saver_minutes);
    lines::lemma_line_energy_saver_minutes(model, g1, f.screen.energy_saver_minutes);
    lemma_step(model, h, s1, "energy-saver-minutes"@, lines::val_energy_saver_minutes(f.screen.energy_saver_minutes));
    let s2 = s1 + line("energy-saver-minutes"@, lines::val_energy_saver_minutes(f.screen.energy_saver_minutes));
    let g2 = lines::with_energy_saver_minutes(g1, f.screen.energy_saver_minutes);
    lines::lemma_line_host_wake_up(model, g2, f.screen.host_wake_up);
    lemma_step(model, h, s2, "host-wake-up"@, flag_text(f.screen.host_wake_up));
    let s3 = s2 + line("host-wake-up"@, flag_text(f.screen.host_wake_up));
    let g3 = lines::with_host_wake_up(g2, f.screen.host_wake_up);
    lines::lemma_line_overscan(model, g3, f.screen.overscan);
    lemma_step(model, h, s3, "overscan"@, flag_text(f.screen.overscan));
    let s4 = s3 + line("overscan"@, flag_text(f.screen.overscan));
    let g4 = lines::with_overscan(g3, f.screen.overscan);
    lemma_merge_part3_b(g, f);
}

/// The first half of lines 4 after `s`.
spec fn saved_part4_a(s: Seq<char>, f: FeaturesView) -> Seq<char> {
    s
        + line("terminal-mode"@, lines::val_terminal_mode(f.general.terminal_mode))
        + line("udk-locked"@, flag_text(f.general.udk_locked))
        + line("user-features-locked"@, flag_text(f.general.user_features_locked))
        + line("national"@, flag_text(f.general.national))
}

/// `g` with the features that the first half of lines 4 carry taken from `f`.
#[verifier::opaque]
spec fn merge_part4_a(g: FeaturesView, f: FeaturesView) -> FeaturesView {
    FeaturesView {
        general: GeneralView {
            terminal_mode: f.general.terminal_mode,
            udk_locked: f.general.udk_locked,
            user_features_locked: f.general.user_features_locked,
            national: f.general.national,
            ..g.general
        },
        ..g
    }
}

/// What [`merge_part4_a`] keeps and what it sets, group by group.
proof fn lemma_frame_merge_part4_a(g: FeaturesView, f: FeaturesView)
    ensures
        merge_part4_a(g, f).global == g.global,
        merge_part4_a(g, f).display == g.display,
        merge_part4_a(g, f).screen == g.screen,
        merge_part4_a(g, f).general == (GeneralView { terminal_mode: f.general.terminal_mode, udk_locked: f.general.udk_locked, user_features_locked: f.general.user_features_locked, national: f.general.national, ..g.general }),
        merge_part4_a(g, f).line == g.line,
        merge_part4_a(g, f).modem == g.modem,
        merge_part4_a(g, f).keys == g.keys,
        merge_part4_a(g, f).layout == g.layout,
{
    reveal(merge_part4_a);
}

/// Setting the features one at a time gives [`merge_part4_a`].
proof fn lemma_merge_part4_a(g: FeaturesView, f: FeaturesView)
    ensures
        lines::with_national(lines::with_user_features_locked(lines::with_udk_locked(lines::with_terminal_mode(g, f.general.terminal_mode), f.general.udk_locked), f.general.user_features_locked), f.general.national) == merge_part4_a(g, f),
{
    reveal(merge_part4_a);
    reveal(lines::with_terminal_mode);
    reveal(lines::with_udk_locked);
    reveal(lines::with_user_features_locked);
    reveal(lines::with_national);
}

/// The first half of lines 4, read after the lines before them.
#[verifier::spinoff_prover]
proof fn lemma_part4_a(model: Model, h: FeaturesView, s: Seq<char>, f: FeaturesView, g: FeaturesView)
    requires
        at_line_start(s),
        read_after(model, h, s) == g,
        terminal_mode_offered(model, f.general.terminal_mode),
    ensures
        at_line_start(saved_part4_a(s, f)),
        read_after(model, h, saved_part4_a(s, f)) == merge_part4_a(g, f),
{
    let s0 = s;
    let g0 = g;
    lines::lemma_line_terminal_mode(model, g0, f.general.terminal_mode);
    lemma_step(model, h, s0, "terminal-mode"@, lines::val_terminal_mode(f.general.terminal_mode));
    let s1 = s0 + line("terminal-mode"@, lines::val_terminal_mode(f.general.terminal_mode));
    let g1 = lines::with_terminal_mode(g0, f.general.terminal_mode);
    lines::lemma_line_udk_locked(model, g1, f.general.udk_locked);
    lemma_step(model, h, s1, "udk-locked"@, flag_text(f.general.udk_locked));
    let s2 = s1 + line("udk-locked"@, flag_text(f.general.udk_locked));
    let g2 = lines::with_udk_locked(g1, f.general.udk_locked);
    lines::lemma_line_user_features_locked(model, g2, f.general.user_features_locked);
    lemma_step(model, h, s2, "user-features-locked"@, flag_text(f.general.user_features_locked));
    let s3 = s2 + line("user-features-locked"@, flag_text(f.general.user_features_locked));
    let g3 = lines::with_user_features_locked(g2, f.general.user_features_locked);
    lines::lemma_line_national(model, g3, f.general.national);
    lemma_step(model, h, s3, "national"@, flag_text(f.general.national));
    let s4 = s3 + line("national"@, flag_text(f.general.national));
    let g4 = lines::with_national(g3, f.general.national);
    lemma_merge_part4_a(g, f);
}

/// The second half of lines 4 after `s`.
spec fn saved_part4_b(s: Seq<char>, f: FeaturesView) -> Seq<char> {
    s
        + line("new-line"@, flag_text(f.general.new_line))
        + line("upss"@, lines::val_upss(f.general.upss))
        + line("terminal-id"@, lines::val_terminal_id(f.general.terminal_id))
        + line("update"@, lines::val_update(f.general.update))
}

/// `g` with the features that the second half of lines 4 carry taken from `f`.
#[verifier::opaque]
spec fn merge_part4_b(g: FeaturesView, f: FeaturesView) -> FeaturesView {
    FeaturesView {
        general: GeneralView {
            new_line: f.general.new_line,
            upss: f.general.upss,
            terminal_id: f.general.terminal_id,
            update: f.general.update,
            ..g.general
        },
        ..g
    }
}

/// What [`merge_part4_b`] keeps and what it sets, group by group.
proof fn lemma_frame_merge_part4_b(g: FeaturesView, f: FeaturesView)
    ensures
        merge_part4_b(g, f).global == g.global,
        merge_part4_b(g, f).display == g.display,
        merge_part4_b(g, f).screen == g.screen,
        merge_part4_b(g, f).general == (GeneralView { new_line: f.general.new_line, upss: f.general.upss, terminal_id: f.general.terminal_id, update: f.general.update, ..g.general }),
        merge_part4_b(g, f).line == g.line,
        merge_part4_b(g, f).modem == g.modem,
        merge_part4_b(g, f).keys == g.keys,
        merge_part4_b(g, f).layout == g.layout,
{
    reveal(merge_part4_b);
}

/// Setting the features one at a time gives [`merge_part4_b`].
proof fn lemma_merge_part4_b(g: FeaturesView, f: FeaturesView)
    ensures
        lines::with_update(lines::with_terminal_id(lines::with_upss(lines::with_new_line(g, f.general.new_line), f.general.upss), f.general.terminal_id), f.general.update) == merge_part4_b(g, f),
{
    reveal(merge_part4_b);
    reveal(lines::with_new_line);
    reveal(lines::with_upss);
    reveal(lines::with_terminal_id);
    reveal(lines::with_update);
}

/// The second half of lines 4, read after the lines before them.
#[verifier::spinoff_prover]
proof fn lemma_part4_b(model: Model, h: FeaturesView, s: Seq<char>, f: FeaturesView, g: FeaturesView)
    requires
        at_line_start(s),
        read_after(model, h, s) == g,
        terminal_id_offered(model, f.general.terminal_id as nat),
        1 <= f.general.update <= 3,
    ensures
        at_line_start(saved_part4_b(s, f)),
        read_after(model, h, saved_part4_b(s, f)) == merge_part4_b(g, f),
{
    let s0 = s;
    let g0 = g;
    lines::lemma_line_new_line(model, g0, f.general.new_line);
    lemma_step(model, h, s0, "new-line"@, flag_text(f.general.new_line));
    let s1 = s0 + line("new-line"@, flag_text(f.general.new_line));
    let g1 = lines::with_new_line(g0, f.general.new_line);
    lines::lemma_line_upss(model, g1, f.general.upss);
    lemma_step(model, h, s1, "upss"@, lines::val_upss(f.general.upss));
    let s2 = s1 + line("upss"@, lines::val_upss(f.general.upss));
    let g2 = lines::with_upss(g1, f.general.upss);
    lines::lemma_line_terminal_id(model, g2, f.general.terminal_id);
    lemma_step(model, h, s2, "terminal-id"@, lines::val_terminal_id(f.general.terminal_id));
    let s3 = s2 + line("terminal-id"@, lines::val_terminal_id(f.general.terminal_id));
    let g3 = lines::with_terminal_id(g2, f.general.terminal_id);
    lines::lemma_line_update(model, g3, f.general.update);
    lemma_step(model, h, s3, "update"@, lines::val_update(f.general.update));
    let s4 = s3 + line("update"@, lines::val_update(f.general.update));
    let g4 = lines::with_update(g3, f.general.update);
    lemma_merge_part4_b(g, f);
}

/// The first half of lines 5 after `s`.
spec fn saved_part5_a(s: Seq<char>, f: FeaturesView) -> Seq<char> {
    s
        + line("transmit-speed"@, lines::val_transmit_speed(f.line.transmit_speed))
        + line("receive-speed"@, lines::val_receive_speed(f.line.receive_speed))
        + line("xoff"@, lines::val_xoff(f.line.xoff))
        + line("word-size"@, lines::val_seven_bit_data(f.line.seven_bit_data))
}

/// `g` with the features that the first half of lines 5 carry taken from `f`.
#[verifier::opaque]
spec fn merge_part5_a(g: FeaturesView, f: FeaturesView) -> FeaturesView {
    FeaturesView {
        line: LineView {
            transmit_speed: f.line.transmit_speed,
            receive_speed: f.line.receive_speed,
            xoff: f.line.xoff,
            seven_bit_data: f.line.seven_bit_data,
            ..g.line
        },
        ..g
    }
}

/// What [`merge_part5_a`] keeps and what it sets, group by group.
proof fn lemma_frame_merge_part5_a(g: FeaturesView, f: FeaturesView)
    ensures
        merge_part5_a(g, f).global == g.global,
        merge_part5_a(g, f).display == g.display,
        merge_part5_a(g, f).screen == g.screen,
        merge_part5_a(g, f).general == g.general,
        merge_part5_a(g, f).line == (LineView { transmit_speed: f.line.transmit_speed, receive_speed: f.line.receive_speed, xoff: f.line.xoff, seven_bit_data: f.line.seven_bit_data, ..g.line }),
        merge_part5_a(g, f).modem == g.modem,
        merge_part5_a(g, f).keys == g.keys,
        merge_part5_a(g, f).layout == g.layout,
{
    reveal(merge_part5_a);
}

/// Setting the features one at a time gives [`merge_part5_a`].
proof fn lemma_merge_part5_a(g: FeaturesView, f: FeaturesView)
    ensures
        lines::with_seven_bit_data(lines::with_xoff(lines::with_receive_speed(lines::with_transmit_speed(g, f.line.transmit_speed), f.line.receive_speed), f.line.xoff), f.line.seven_bit_data) == merge_part5_a(g, f),
{
    reveal(merge_part5_a);
    reveal(lines::with_transmit_speed);
    reveal(lines::with_receive_speed);
    reveal(lines::with_xoff);
    reveal(lines::with_seven_bit_data);
}

/// The first half of lines 5, read after the lines before them.
#[verifier::spinoff_prover]
proof fn lemma_part5_a(model: Model, h: FeaturesView, s: Seq<char>, f: FeaturesView, g: FeaturesView)
    requires
        at_line_start(s),
        read_after(model, h, s) == g,
        speed_offered(model, f.line.transmit_speed as nat),
        (f.line.receive_speed matches Some(n) ==> speed_offered(model, n as nat)),
        (f.line.xoff matches Some(n) ==> n == 64 || n == 128),
    ensures
        at_line_start(saved_part5_a(s, f)),
        read_after(model, h, saved_part5_a(s, f)) == merge_part5_a(g, f),
{
    let s0 = s;
    let g0 = g;
    lines::lemma_line_transmit_speed(model, g0, f.line.transmit_speed);
    lemma_step(model, h, s0, "transmit-speed"@, lines::val_transmit_speed(f.line.transmit_speed));
    let s1 = s0 + line("transmit-speed"@, lines::val_transmit_speed(f.line.transmit_speed));
    let g1 = lines::with_transmit_speed(g0, f.line.transmit_speed);
    lines::lemma_line_receive_speed(model, g1, f.line.receive_speed);
    lemma_step(model, h, s1, "receive-speed"@, lines::val_receive_speed(f.line.receive_speed));
    let s2 = s1 + line("receive-speed"@, lines::val_receive_speed(f.line.receive_speed));
    let g2 = lines::with_receive_speed(g1, f.line.receive_speed);
    lines::lemma_line_xoff(model, g2, f.line.xoff);
    lemma_step(model, h, s2, "xoff"@, lines::val_xoff(f.line.xoff));
    let s3 = s2 + line("xoff"@, lines::val_xoff(f.line.xoff));
    let g3 = lines::with_xoff(g2, f.line.xoff);
    lines::lemma_line_seven_bit_data(model, g3, f.line.seven_bit_data);
    lemma_step(model, h, s3, "word-size"@, lines::val_seven_bit_data(f.line.seven_bit_data));
    let s4 = s3 + line("word-size"@, lines::val_seven_bit_data(f.line.seven_bit_data));
    let g4 = lines::with_seven_bit_data(g3, f.line.seven_bit_data);
    lemma_merge_part5_a(g, f);
}

/// The second half of lines 5 after `s`.
spec fn saved_part5_b(s: Seq<char>, f: FeaturesView) -> Seq<char> {
    s
        + line("parity"@, lines::val_parity(f.line.parity))
        + line("stop-bits"@, lines::val_two_stop_bits(f.line.two_stop_bits))
        + line("transmit-flow"@, lines::val_transmit_flow(f.line.transmit_flow))
        + line("receive-flow"@, lines::val_receive_flow(f.line.receive_flow))
}

/// `g` with the features that the second half of lines 5 carry taken from `f`.
#[verifier::opaque]
spec fn merge_part5_b(g: FeaturesView, f: FeaturesView) -> FeaturesView {
    FeaturesView {
        line: LineView {
            parity: f.line.parity,
            two_stop_bits: f.line.two_stop_bits,
            transmit_flow: f.line.transmit_flow,
            receive_flow: f.line.receive_flow,
            ..g.line
        },
        ..g
    }
}

/// What [`merge_part5_b`] keeps and what it sets, group by group.
proof fn lemma_frame_merge_part5_b(g: FeaturesView, f: FeaturesView)
    ensures
        merge_part5_b(g, f).global == g.global,
        merge_part5_b(g, f).display == g.display,
        merge_part5_b(g, f).screen == g.screen,
        merge_part5_b(g, f).general == g.general,
        merge_part5_b(g, f).line == (LineView { parity: f.line.parity, two_stop_bits: f.line.two_stop_bits, transmit_flow: f.line.transmit_flow, receive_flow: f.line.receive_flow, ..g.line }),
        merge_part5_b(g, f).modem == g.modem,
        merge_part5_b(g, f).keys == g.keys,
        merge_part5_b(g, f).layout == g.layout,
{
    reveal(merge_part5_b);
}

/// Setting the features one at a time gives [`merge_part5_b`].
proof fn lemma_merge_part5_b(g: FeaturesView, f: FeaturesView)
    ensures
        lines::with_receive_flow(lines::with_transmit_flow(lines::with_two_stop_bits(lines::with_parity(g, f.line.parity), f.line.two_stop_bits), f.line.transmit_flow), f.line.receive_flow) == merge_part5_b(g, f),
{
    reveal(merge_part5_b);
    reveal(lines::with_parity);
    reveal(lines::with_two_stop_bits);
    reveal(lines::with_transmit_flow);
    reveal(lines::with_receive_flow);
}

/// The second half of lines 5, read after the lines before them.
#[verifier::spinoff_prover]
proof fn lemma_part5_b(model: Model, h: FeaturesView, s: Seq<char>, f: FeaturesView, g: FeaturesView)
    requires
        at_line_start(s),
        read_after(model, h, s) == g,
        f.line.transmit_flow <= 3,
        f.line.receive_flow <= 3,
    ensures
        at_line_start(saved_part5_b(s, f)),
        read_after(model, h, saved_part5_b(s, f)) == merge_part5_b(g, f),
{
    let s0 = s;
    let g0 = g;
    lines::lemma_line_parity(model, g0, f.line.parity);
    lemma_step(model, h, s0, "parity"@, lines::val_parity(f.line.parity));
    let s1 = s0 + line("parity"@, lines::val_parity(f.line.parity));
    let g1 = lines::with_parity(g0, f.line.parity);
    lines::lemma_line_two_stop_bits(model, g1, f.line.two_stop_bits);
    lemma_step(model, h, s1, "stop-bits"@, lines::val_two_stop_bits(f.line.two_stop_bits));
    let s2 = s1 + line("stop-bits"@, lines::val_two_stop_bits(f.line.two_stop_bits));
    let g2 = lines::with_two_stop_bits(g1, f.line.two_stop_bits);
    lines::lemma_line_transmit_flow(model, g2, f.line.transmit_flow);
    lemma_step(model, h, s2, "transmit-flow"@, lines::val_transmit_flow(f.line.transmit_flow));
    let s3 = s2 + line("transmit-flow"@, lines::val_transmit_flow(f.line.transmit_flow));
    let g3 = lines::with_transmit_flow(g2, f.line.transmit_flow);
    lines::lemma_line_receive_flow(model, g3, f.line.receive_flow);
    lemma_step(model, h, s3, "receive-flow"@, lines::val_receive_flow(f.line.receive_flow));
    let s4 = s3 + line("receive-flow"@, lines::val_receive_flow(f.line.receive_flow));
    let g4 = lines::with_receive_flow(g3, f.line.receive_flow);
    lemma_merge_part5_b(g, f);
}

/// The first half of lines 6 after `s`.
spec fn saved_part6_a(s: Seq<char>, f: FeaturesView) -> Seq<char> {
    s
        + line("flow-threshold-high"@, flag_text(f.line.flow_threshold_high))
        + line("transmit-rate"@, lines::val_transmit_rate(f.line.transmit_rate))
        + line("fkey-rate"@, lines::val_fkey_rate(f.line.fkey_rate))
        + line("ignore-null"@, flag_text(f.modem.ignore_null))
}

/// `g` with the features that the first half of lines 6 carry taken from `f`.
#[verifier::opaque]
spec fn merge_part6_a(g: FeaturesView, f: FeaturesView) -> FeaturesView {
    FeaturesView {
        line: LineView {
            flow_threshold_high: f.line.flow_threshold_high,
            transmit_rate: f.line.transmit_rate,
            fkey_rate: f.line.fkey_rate,
            ..g.line
        },
        modem: ModemView {
            ignore_null: f.modem.ignore_null,
            ..g.modem
        },
        ..g
    }
}

/// What [`merge_part6_a`] keeps and what it sets, group by group.
proof fn lemma_frame_merge_part6_a(g: FeaturesView, f: FeaturesView)
    ensures
        merge_part6_a(g, f).global == g.global,
        merge_part6_a(g, f).display == g.display,
        merge_part6_a(g, f).screen == g.screen,
        merge_part6_a(g, f).general == g.general,
        merge_part6_a(g, f).line == (LineView { flow_threshold_high: f.line.flow_threshold_high, transmit_rate: f.line.transmit_rate, fkey_rate: f.line.fkey_rate, ..g.line }),
        merge_part6_a(g, f).modem == (ModemView { ignore_null: f.modem.ignore_null, ..g.modem }),
        merge_part6_a(g, f).keys == g.keys,
        merge_part6_a(g, f).layout == g.layout,
{
    reveal(merge_part6_a);
}

/// Setting the features one at a time gives [`merge_part6_a`].
proof fn lemma_merge_part6_a(g: FeaturesView, f: FeaturesView)
    ensures
        lines::with_ignore_null(lines::with_fkey_rate(lines::with_transmit_rate(lines::with_flow_threshold_high(g, f.line.flow_threshold_high), f.line.transmit_rate), f.line.fkey_rate), f.modem.ignore_null) == merge_part6_a(g, f),
{
    reveal(merge_part6_a);
    reveal(lines::with_flow_threshold_high);
    reveal(lines::with_transmit_rate);
    reveal(lines::with_fkey_rate);
    reveal(lines::with_ignore_null);
}

/// The first half of lines 6, read after the lines before them.
#[verifier::spinoff_prover]
proof fn lemma_part6_a(model: Model, h: FeaturesView, s: Seq<char>, f: FeaturesView, g: FeaturesView)
    requires
        at_line_start(s),
        read_after(model, h, s) == g,
        1 <= f.line.transmit_rate <= 3,
        f.line.fkey_rate <= 3,
    ensures
        at_line_start(saved_part6_a(s, f)),
        read_after(model, h, saved_part6_a(s, f)) == merge_part6_a(g, f),
{
    let s0 = s;
    let g0 = g;
    lines::lemma_line_flow_threshold_high(model, g0, f.line.flow_threshold_high);
    lemma_step(model, h, s0, "flow-threshold-high"@, flag_text(f.line.flow_threshold_high));
    let s1 = s0 + line("flow-threshold-high"@, flag_text(f.line.flow_threshold_high));
    let g1 = lines::with_flow_threshold_high(g0, f.line.flow_threshold_high);
    lines::lemma_line_transmit_rate(model, g1, f.line.transmit_rate);
    lemma_step(model, h, s1, "transmit-rate"@, lines::val_transmit_rate(f.line.transmit_rate));
    let s2 = s1 + line("transmit-rate"@, lines::val_transmit_rate(f.line.transmit_rate));
    let g2 = lines::with_transmit_rate(g1, f.line.transmit_rate);
    lines::lemma_line_fkey_rate(model, g2, f.line.fkey_rate);
    lemma_step(model, h, s2, "fkey-rate"@, lines::val_fkey_rate(f.line.fkey_rate));
    let s3 = s2 + line("fkey-rate"@, lines::val_fkey_rate(f.line.fkey_rate));
    let g3 = lines::with_fkey_rate(g2, f.line.fkey_rate);
    lines::lemma_line_ignore_null(model, g3, f.modem.ignore_null);
    lemma_step(model, h, s3, "ignore-null"@, flag_text(f.modem.ignore_null));
    let s4 = s3 + line("ignore-null"@, flag_text(f.modem.ignore_null));
    let g4 = lines::with_ignore_null(g3, f.modem.ignore_null);
    lemma_merge_part6_a(g, f);
}

/// The second half of lines 6 after `s`.
spec fn saved_part6_b(s: Seq<char>, f: FeaturesView) -> Seq<char> {
    s
        + line("half-duplex"@, flag_text(f.modem.half_duplex))
        + line("modem-high-speed"@, lines::val_modem_high_speed(f.modem.modem_high_speed))
        + line("modem-low-speed"@, lines::val_modem_low_speed(f.modem.modem_low_speed))
        + line("local-echo"@, flag_text(f.modem.local_echo))
}

/// `g` with the features that the second half of lines 6 carry taken from `f`.
#[verifier::opaque]
spec fn merge_part6_b(g: FeaturesView, f: FeaturesView) -> FeaturesView {
    FeaturesView {
        modem: ModemView {
            half_duplex: f.modem.half_duplex,
            modem_high_speed: f.modem.modem_high_speed,
            modem_low_speed: f.modem.modem_low_speed,
            local_echo: f.modem.local_echo,
            ..g.modem
        },
        ..g
    }
}

/// What [`merge_part6_b`] keeps and what it sets, group by group.
proof fn lemma_frame_merge_part6_b(g: FeaturesView, f: FeaturesView)
    ensures
        merge_part6_b(g, f).global == g.global,
        merge_part6_b(g, f).display == g.display,
        merge_part6_b(g, f).screen == g.screen,
        merge_part6_b(g, f).general == g.general,
        merge_part6_b(g, f).line == g.line,
        merge_part6_b(g, f).modem == (ModemView { half_duplex: f.modem.half_duplex, modem_high_speed: f.modem.modem_high_speed, modem_low_speed: f.modem.modem_low_speed, local_echo: f.modem.local_echo, ..g.modem }),
        merge_part6_b(g, f).keys == g.keys,
        merge_part6_b(g, f).layout == g.layout,
{
    reveal(merge_part6_b);
}

/// Setting the features one at a time gives [`merge_part6_b`].
proof fn lemma_merge_part6_b(g: FeaturesView, f: FeaturesView)
    ensures
        lines::with_local_echo(lines::with_modem_low_speed(lines::with_modem_high_speed(lines::with_half_duplex(g, f.modem.half_duplex), f.modem.modem_high_speed), f.modem.modem_low_speed), f.modem.local_echo) == merge_part6_b(g, f),
{
    reveal(merge_part6_b);
    reveal(lines::with_half_duplex);
    reveal(lines::with_modem_high_speed);
    reveal(lines::with_modem_low_speed);
    reveal(lines::with_local_echo);
}

/// The second half of lines 6, read after the lines before them.
#[verifier::spinoff_prover]
proof fn lemma_part6_b(model: Model, h: FeaturesView, s: Seq<char>, f: FeaturesView, g: FeaturesView)
    requires
        at_line_start(s),
        read_after(model, h, s) == g,
        (f.modem.modem_high_speed matches Some(n) ==> speed_offered(model, n as nat)),
        (f.modem.modem_low_speed matches Some(n) ==> speed_offered(model, n as nat)),
    ensures
        at_line_start(saved_part6_b(s, f)),
        read_after(model, h, saved_part6_b(s, f)) == merge_part6_b(g, f),
{
    let s0 = s;
    let g0 = g;
    lines::lemma_line_half_duplex(model, g0, f.modem.half_duplex);
    lemma_step(model, h, s0, "half-duplex"@, flag_text(f.modem.half_duplex));
    let s1 = s0 + line("half-duplex"@, flag_text(f.modem.half_duplex));
    let g1 = lines::with_half_duplex(g0, f.modem.half_duplex);
    lines::lemma_line_modem_high_speed(model, g1, f.modem.modem_high_speed);
    lemma_step(model, h, s1, "modem-high-speed"@, lines::val_modem_high_speed(f.modem.modem_high_speed));
    let s2 = s1 + line("modem-high-speed"@, lines::val_modem_high_speed(f.modem.modem_high_speed));
    let g2 = lines::with_modem_high_speed(g1, f.modem.modem_high_speed);
    lines::lemma_line_modem_low_speed(model, g2, f.modem.modem_low_speed);
    lemma_step(model, h, s2, "modem-low-speed"@, lines::val_modem_low_speed(f.modem.modem_low_speed));
    let s3 = s2 + line("modem-low-speed"@, lines::val_modem_low_speed(f.modem.modem_low_speed));
    let g3 = lines::with_modem_low_speed(g2, f.modem.modem_low_speed);
    lines::lemma_line_local_echo(model, g3, f.modem.local_echo);
    lemma_step(model, h, s3, "local-echo"@, flag_text(f.modem.local_echo));
    let s4 = s3 + line("local-echo"@, flag_text(f.modem.local_echo));
    let g4 = lines::with_local_echo(g3, f.modem.local_echo);
    lemma_merge_part6_b(g, f);
}

/// The first half of lines 7 after `s`.
spec fn saved_part7_a(s: Seq<char>, f: FeaturesView) -> Seq<char> {
    s
        + line("modem-control"@, flag_text(f.modem.modem_control))
        + line("disconnect"@, lines::val_disconnect(f.modem.disconnect))
        + line("limited-transmit"@, flag_text(f.modem.limited_transmit))
        + line("auto-answerback"@, flag_text(f.modem.auto_answerback))
}

/// `g` with the features that the first half of lines 7 carry taken from `f`.
#[verifier::opaque]
spec fn merge_part7_a(g: FeaturesView, f: FeaturesView) -> FeaturesView {
    FeaturesView {
        modem: ModemView {
            modem_control: f.modem.modem_control,
            disconnect: f.modem.disconnect,
            limited_transmit: f.modem.limited_transmit,
            auto_answerback: f.modem.auto_answerback,
            ..g.modem
        },
        ..g
    }
}

/// What [`merge_part7_a`] keeps and what it sets, group by group.
proof fn lemma_frame_merge_part7_a(g: FeaturesView, f: FeaturesView)
    ensures
        merge_part7_a(g, f).global == g.global,
        merge_part7_a(g, f).display == g.display,
        merge_part7_a(g, f).screen == g.screen,
        merge_part7_a(g, f).general == g.general,
        merge_part7_a(g, f).line == g.line,
        merge_part7_a(g, f).modem == (ModemView { modem_control: f.modem.modem_control, disconnect: f.modem.disconnect, limited_transmit: f.modem.limited_transmit, auto_answerback: f.modem.auto_answerback, ..g.modem }),
        merge_part7_a(g, f).keys == g.keys,
        merge_part7_a(g, f).layout == g.layout,
{
    reveal(merge_part7_a);
}

/// Setting the features one at a time gives [`merge_part7_a`].
proof fn lemma_merge_part7_a(g: FeaturesView, f: FeaturesView)
    ensures
        lines::with_auto_answerback(lines::with_limited_transmit(lines::with_disconnect(lines::with_modem_control(g, f.modem.modem_control), f.modem.disconnect), f.modem.limited_transmit), f.modem.auto_answerback) == merge_part7_a(g, f),
{
    reveal(merge_part7_a);
    reveal(lines::with_modem_control);
    reveal(lines::with_disconnect);
    reveal(lines::with_limited_transmit);
    reveal(lines::with_auto_answerback);
}

/// The first half of lines 7, read after the lines before them.
#[verifier::spinoff_prover]
proof fn lemma_part7_a(model: Model, h: FeaturesView, s: Seq<char>, f: FeaturesView, g: FeaturesView)
    requires
        at_line_start(s),
        read_after(model, h, s) == g,
        f.modem.disconnect <= 2,
    ensures
        at_line_start(saved_part7_a(s, f)),
        read_after(model, h, saved_part7_a(s, f)) == merge_part7_a(g, f),
{
    let s0 = s;
    let g0 = g;
    lines::lemma_line_modem_control(model, g0, f.modem.modem_control);
    lemma_step(model, h, s0, "modem-control"@, flag_text(f.modem.modem_control));
    let s1 = s0 + line("modem-control"@, flag_text(f.modem.modem_control));
    let g1 = lines::with_modem_control(g0, f.modem.modem_control);
    lines::lemma_line_disconnect(model, g1, f.modem.disconnect);
    lemma_step(model, h, s1, "disconnect"@, lines::val_disconnect(f.modem.disconnect));
    let s2 = s1 + line("disconnect"@, lines::val_disconnect(f.modem.disconnect));
    let g2 = lines::with_disconnect(g1, f.modem.disconnect);
    lines::lemma_line_limited_transmit(model, g2, f.modem.limited_transmit);
    lemma_step(model, h, s2, "limited-transmit"@, flag_text(f.modem.limited_transmit));
    let s3 = s2 + line("limited-transmit"@, flag_text(f.modem.limited_transmit));
    let g3 = lines::with_limited_transmit(g2, f.modem.limited_transmit);
    lines::lemma_line_auto_answerback(model, g3, f.modem.auto_answerback);
    lemma_step(model, h, s3, "auto-answerback"@, flag_text(f.modem.auto_answerback));
    let s4 = s3 + line("auto-answerback"@, flag_text(f.modem.auto_answerback));
    let g4 = lines::with_auto_answerback(g3, f.modem.auto_answerback);
    lemma_merge_part7_a(g, f);
}

/// The second half of lines 7 after `s`.
spec fn saved_part7_b(s: Seq<char>, f: FeaturesView) -> Seq<char> {
    s
        + line("answerback"@, lines::val_answerback(f.modem.answerback))
        + line("conceal-answerback"@, flag_text(f.modem.conceal_answerback))
        + line("data-processing-keys"@, flag_text(f.keys.data_processing_keys))
        + line("shift-lock"@, flag_text(f.keys.shift_lock))
}

/// `g` with the features that the second half of lines 7 carry taken from `f`.
#[verifier::opaque]
spec fn merge_part7_b(g: FeaturesView, f: FeaturesView) -> FeaturesView {
    FeaturesView {
        modem: ModemView {
            answerback: f.modem.answerback,
            conceal_answerback: f.modem.conceal_answerback,
            ..g.modem
        },
        keys: KeysView {
            data_processing_keys: f.keys.data_processing_keys,
            shift_lock: f.keys.shift_lock,
            ..g.keys
        },
        ..g
    }
}

/// What [`merge_part7_b`] keeps and what it sets, group by group.
proof fn lemma_frame_merge_part7_b(g: FeaturesView, f: FeaturesView)
    ensures
        merge_part7_b(g, f).global == g.global,
        merge_part7_b(g, f).display == g.display,
        merge_part7_b(g, f).screen == g.screen,
        merge_part7_b(g, f).general == g.general,
        merge_part7_b(g, f).line == g.line,
        merge_part7_b(g, f).modem == (ModemView { answerback: f.modem.answerback, conceal_answerback: f.modem.conceal_answerback, ..g.modem }),
        merge_part7_b(g, f).keys == (KeysView { data_processing_keys: f.keys.data_processing_keys, shift_lock: f.keys.shift_lock, ..g.keys }),
        merge_part7_b(g, f).layout == g.layout,
{
    reveal(merge_part7_b);
}

/// Setting the features one at a time gives [`merge_part7_b`].
proof fn lemma_merge_part7_b(g: FeaturesView, f: FeaturesView)
    ensures
        lines::with_shift_lock(lines::with_data_processing_keys(lines::with_conceal_answerback(lines::with_answerback(g, f.modem.answerback), f.modem.conceal_answerback), f.keys.data_processing_keys), f.keys.shift_lock) == merge_part7_b(g, f),
{
    reveal(merge_part7_b);
    reveal(lines::with_answerback);
    reveal(lines::with_conceal_answerback);
    reveal(lines::with_data_processing_keys);
    reveal(lines::with_shift_lock);
}

/// The second half of lines 7, read after the lines before them.
#[verifier::spinoff_prover]
proof fn lemma_part7_b(model: Model, h: FeaturesView, s: Seq<char>, f: FeaturesView, g: FeaturesView)
    requires
        at_line_start(s),
        read_after(model, h, s) == g,
    ensures
        at_line_start(saved_part7_b(s, f)),
        read_after(model, h, saved_part7_b(s, f)) == merge_part7_b(g, f),
{
    let s0 = s;
    let g0 = g;
    lines::lemma_line_answerback(model, g0, f.modem.answerback);
    lemma_step(model, h, s0, "answerback"@, lines::val_answerback(f.modem.answerback));
    let s1 = s0 + line("answerback"@, lines::val_answerback(f.modem.answerback));
    let g1 = lines::with_answerback(g0, f.modem.answerback);
    lines::lemma_line_conceal_answerback(model, g1, f.modem.conceal_answerback);
    lemma_step(model, h, s1, "conceal-answerback"@, flag_text(f.modem.conceal_answerback));
    let s2 = s1 + line("conceal-answerback"@, flag_text(f.modem.conceal_answerback));
    let g2 = lines::with_conceal_answerback(g1, f.modem.conceal_answerback);
    lines::lemma_line_data_processing_keys(model, g2, f.keys.data_processing_keys);
    lemma_step(model, h, s2, "data-processing-keys"@, flag_text(f.keys.data_processing_keys));
    let s3 = s2 + line("data-processing-keys"@, flag_text(f.keys.data_processing_keys));
    let g3 = lines::with_data_processing_keys(g2, f.keys.data_processing_keys);
    lines::lemma_line_shift_lock(model, g3, f.keys.shift_lock);
    lemma_step(model, h, s3, "shift-lock"@, flag_text(f.keys.shift_lock));
    let s4 = s3 + line("shift-lock"@, flag_text(f.keys.shift_lock));
    let g4 = lines::with_shift_lock(g3, f.keys.shift_lock);
    lemma_merge_part7_b(g, f);
}

/// The first half of lines 8 after `s`.
spec fn saved_part8_a(s: Seq<char>, f: FeaturesView) -> Seq<char> {
    s
        + line("auto-repeat"@, flag_text(f.keys.auto_repeat))
        + line("auto-repeat-rate"@, lines::val_auto_repeat_rate(f.keys.auto_repeat_rate))
        + line("keyclick"@, lines::val_keyclick(f.keys.keyclick))
        + line("margin-bell"@, lines::val_margin_bell(f.keys.margin_bell))
}

/// `g` with the features that the first half of lines 8 carry taken from `f`.
#[verifier::opaque]
spec fn merge_part8_a(g: FeaturesView, f: FeaturesView) -> FeaturesView {
    FeaturesView {
        keys: KeysView {
            auto_repeat: f.keys.auto_repeat,
            auto_repeat_rate: f.keys.auto_repeat_rate,
            keyclick: f.keys.keyclick,
            margin_bell: f.keys.margin_bell,
            ..g.keys
        },
        ..g
    }
}

/// What [`merge_part8_a`] keeps and what it sets, group by group.
proof fn lemma_frame_merge_part8_a(g: FeaturesView, f: FeaturesView)
    ensures
        merge_part8_a(g, f).global == g.global,
        merge_part8_a(g, f).display == g.display,
        merge_part8_a(g, f).screen == g.screen,
        merge_part8_a(g, f).general == g.general,
        merge_part8_a(g, f).line == g.line,
        merge_part8_a(g, f).modem == g.modem,
        merge_part8_a(g, f).keys == (KeysView { auto_repeat: f.keys.auto_repeat, auto_repeat_rate: f.keys.auto_repeat_rate, keyclick: f.keys.keyclick, margin_bell: f.keys.margin_bell, ..g.keys }),
        merge_part8_a(g, f).layout == g.layout,
{
    reveal(merge_part8_a);
}

/// Setting the features one at a time gives [`merge_part8_a`].
proof fn lemma_merge_part8_a(g: FeaturesView, f: FeaturesView)
    ensures
        lines::with_margin_bell(lines::with_keyclick(lines::with_auto_repeat_rate(lines::with_auto_repeat(g, f.keys.auto_repeat), f.keys.auto_repeat_rate), f.keys.keyclick), f.keys.margin_bell) == merge_part8_a(g, f),
{
    reveal(merge_part8_a);
    reveal(lines::with_auto_repeat);
    reveal(lines::with_auto_repeat_rate);
    reveal(lines::with_keyclick);
    reveal(lines::with_margin_bell);
}

/// The first half of lines 8, read after the lines before them.
#[verifier::spinoff_prover]
proof fn lemma_part8_a(model: Model, h: FeaturesView, s: Seq<char>, f: FeaturesView, g: FeaturesView)
    requires
        at_line_start(s),
        read_after(model, h, s) == g,
        f.keys.auto_repeat_rate == 10 || f.keys.auto_repeat_rate == 30,
    ensures
        at_line_start(saved_part8_a(s, f)),
        read_after(model, h, saved_part8_a(s, f)) == merge_part8_a(g, f),
{
    let s0 = s;
    let g0 = g;
    lines::lemma_line_auto_repeat(model, g0, f.keys.auto_repeat);
    lemma_step(model, h, s0, "auto-repeat"@, flag_text(f.keys.auto_repeat));
    let s1 = s0 + line("auto-repeat"@, flag_text(f.keys.auto_repeat));
    let g1 = lines::with_auto_repeat(g0, f.keys.auto_repeat);
    lines::lemma_line_auto_repeat_rate(model, g1, f.keys.auto_repeat_rate);
    lemma_step(model, h, s1, "auto-repeat-rate"@, lines::val_auto_repeat_rate(f.keys.auto_repeat_rate));
    let s2 = s1 + line("auto-repeat-rate"@, lines::val_auto_repeat_rate(f.keys.auto_repeat_rate));
    let g2 = lines::with_auto_repeat_rate(g1, f.keys.auto_repeat_rate);
    lines::lemma_line_keyclick(model, g2, f.keys.keyclick);
    lemma_step(model, h, s2, "keyclick"@, lines::val_keyclick(f.keys.keyclick));
    let s3 = s2 + line("keyclick"@, lines::val_keyclick(f.keys.keyclick));
    let g3 = lines::with_keyclick(g2, f.keys.keyclick);
    lines::lemma_line_margin_bell(model, g3, f.keys.margin_bell);
    lemma_step(model, h, s3, "margin-bell"@, lines::val_margin_bell(f.keys.margin_bell));
    let s4 = s3 + line("margin-bell"@, lines::val_margin_bell(f.keys.margin_bell));
    let g4 = lines::with_margin_bell(g3, f.keys.margin_bell);
    lemma_merge_part8_a(g, f);
}

/// The second half of lines 8 after `s`.
spec fn saved_part8_b(s: Seq<char>, f: FeaturesView) -> Seq<char> {
    s
        + line("warning-bell"@, lines::val_warning_bell(f.keys.warning_bell))
        + line("position-mode"@, flag_text(f.keys.position_mode))
        + line("backarrow-bs"@, flag_text(f.keys.backarrow_bs))
        + line("compose"@, lines::val_compose(f.keys.compose))
}

/// `g` with the features that the second half of lines 8 carry taken from `f`.
#[verifier::opaque]
spec fn merge_part8_b(g: FeaturesView, f: FeaturesView) -> FeaturesView {
    FeaturesView {
        keys: KeysView {
            warning_bell: f.keys.warning_bell,
            position_mode: f.keys.position_mode,
            backarrow_bs: f.keys.backarrow_bs,
            compose: f.keys.compose,
            ..g.keys
        },
        ..g
    }
}

/// What [`merge_part8_b`] keeps and what it sets, group by group.
proof fn lemma_frame_merge_part8_b(g: FeaturesView, f: FeaturesView)
    ensures
        merge_part8_b(g, f).global == g.global,
        merge_part8_b(g, f).display == g.display,
        merge_part8_b(g, f).screen == g.screen,
        merge_part8_b(g, f).general == g.general,
        merge_part8_b(g, f).line == g.line,
        merge_part8_b(g, f).modem == g.modem,
        merge_part8_b(g, f).keys == (KeysView { warning_bell: f.keys.warning_bell, position_mode: f.keys.position_mode, backarrow_bs: f.keys.backarrow_bs, compose: f.keys.compose, ..g.keys }),
        merge_part8_b(g, f).layout == g.layout,
{
    reveal(merge_part8_b);
}

/// Setting the features one at a time gives [`merge_part8_b`].
proof fn lemma_merge_part8_b(g: FeaturesView, f: FeaturesView)
    ensures
        lines::with_compose(lines::with_backarrow_bs(lines::with_position_mode(lines::with_warning_bell(g, f.keys.warning_bell), f.keys.position_mode), f.keys.backarrow_bs), f.keys.compose) == merge_part8_b(g, f),
{
    reveal(merge_part8_b);
    reveal(lines::with_warning_bell);
    reveal(lines::with_position_mode);
    reveal(lines::with_backarrow_bs);
    reveal(lines::with_compose);
}

/// The second half of lines 8, read after the lines before them.
#[verifier::spinoff_prover]
proof fn lemma_part8_b(model: Model, h: FeaturesView, s: Seq<char>, f: FeaturesView, g: FeaturesView)
    requires
        at_line_start(s),
        read_after(model, h, s) == g,
    ensures
        at_line_start(saved_part8_b(s, f)),
        read_after(model, h, saved_part8_b(s, f)) == merge_part8_b(g, f),
{
    let s0 = s;
    let g0 = g;
    lines::lemma_line_warning_bell(model, g0, f.keys.warning_bell);
    lemma_step(model, h, s0, "warning-bell"@, lines::val_warning_bell(f.keys.warning_bell));
    let s1 = s0 + line("warning-bell"@, lines::val_warning_bell(f.keys.warning_bell));
    let g1 = lines::with_warning_bell(g0, f.keys.warning_bell);
    lines::lemma_line_position_mode(model, g1, f.keys.position_mode);
    lemma_step(model, h, s1, "position-mode"@, flag_text(f.keys.position_mode));
    let s2 = s1 + line("position-mode"@, flag_text(f.keys.position_mode));
    let g2 = lines::with_position_mode(g1, f.keys.position_mode);
    lines::lemma_line_backarrow_bs(model, g2, f.keys.backarrow_bs);
    lemma_step(model, h, s2, "backarrow-bs"@, flag_text(f.keys.backarrow_bs));
    let s3 = s2 + line("backarrow-bs"@, flag_text(f.keys.backarrow_bs));
    let g3 = lines::with_backarrow_bs(g2, f.keys.backarrow_bs);
    lines::lemma_line_compose(model, g3, f.keys.compose);
    lemma_step(model, h, s3, "compose"@, lines::val_compose(f.keys.compose));
    let s4 = s3 + line("compose"@, lines::val_compose(f.keys.compose));
    let g4 = lines::with_compose(g3, f.keys.compose);
    lemma_merge_part8_b(g, f);
}

/// The first half of lines 9 after `s`.
spec fn saved_part9_a(s: Seq<char>, f: FeaturesView) -> Seq<char> {
    s
        + line("report-alt"@, flag_text(f.keys.report_alt))
        + line("local-keys"@, lines::val_local_keys(f.layout.local_keys))
        + line("break-key"@, lines::val_break_key(f.layout.break_key))
        + line("comma-period-same"@, flag_text(f.layout.comma_period_same))
}

/// `g` with the features that the first half of lines 9 carry taken from `f`.
#[verifier::opaque]
spec fn merge_part9_a(g: FeaturesView, f: FeaturesView) -> FeaturesView {
    FeaturesView {
        keys: KeysView {
            report_alt: f.keys.report_alt,
            ..g.keys
        },
        layout: LayoutView {
            local_keys: f.layout.local_keys,
            break_key: f.layout.break_key,
            comma_period_same: f.layout.comma_period_same,
            ..g.layout
        },
        ..g
    }
}

/// What [`merge_part9_a`] keeps and what it sets, group by group.
proof fn lemma_frame_merge_part9_a(g: FeaturesView, f: FeaturesView)
    ensures
        merge_part9_a(g, f).global == g.global,
        merge_part9_a(g, f).display == g.display,
        merge_part9_a(g, f).screen == g.screen,
        merge_part9_a(g, f).general == g.general,
        merge_part9_a(g, f).line == g.line,
        merge_part9_a(g, f).modem == g.modem,
        merge_part9_a(g, f).keys == (KeysView { report_alt: f.keys.report_alt, ..g.keys }),
        merge_part9_a(g, f).layout == (LayoutView { local_keys: f.layout.local_keys, break_key: f.layout.break_key, comma_period_same: f.layout.comma_period_same, ..g.layout }),
{
    reveal(merge_part9_a);
}

/// Setting the features one at a time gives [`merge_part9_a`].
proof fn lemma_merge_part9_a(g: FeaturesView, f: FeaturesView)
    ensures
        lines::with_comma_period_same(lines::with_break_key(lines::with_local_keys(lines::with_report_alt(g, f.keys.report_alt), f.layout.local_keys), f.layout.break_key), f.layout.comma_period_same) == merge_part9_a(g, f),
{
    reveal(merge_part9_a);
    reveal(lines::with_report_alt);
    reveal(lines::with_local_keys);
    reveal(lines::with_break_key);
    reveal(lines::with_comma_period_same);
}

/// The first half of lines 9, read after the lines before them.
#[verifier::spinoff_prover]
proof fn lemma_part9_a(model: Model, h: FeaturesView, s: Seq<char>, f: FeaturesView, g: FeaturesView)
    requires
        at_line_start(s),
        read_after(model, h, s) == g,
        f.layout.local_keys.len() == g.layout.local_keys.len(),
    ensures
        at_line_start(saved_part9_a(s, f)),
        read_after(model, h, saved_part9_a(s, f)) == merge_part9_a(g, f),
{
    reveal(lines::with_report_alt);
    let s0 = s;
    let g0 = g;
    lines::lemma_line_report_alt(model, g0, f.keys.report_alt);
    lemma_step(model, h, s0, "report-alt"@, flag_text(f.keys.report_alt));
    let s1 = s0 + line("report-alt"@, flag_text(f.keys.report_alt));
    let g1 = lines::with_report_alt(g0, f.keys.report_alt);
    lines::lemma_line_local_keys(model, g1, f.layout.local_keys);
    lemma_step(model, h, s1, "local-keys"@, lines::val_local_keys(f.layout.local_keys));
    let s2 = s1 + line("local-keys"@, lines::val_local_keys(f.layout.local_keys));
    let g2 = lines::with_local_keys(g1, f.layout.local_keys);
    lines::lemma_line_break_key(model, g2, f.layout.break_key);
    lemma_step(model, h, s2, "break-key"@, lines::val_break_key(f.layout.break_key));
    let s3 = s2 + line("break-key"@, lines::val_break_key(f.layout.break_key));
    let g3 = lines::with_break_key(g2, f.layout.break_key);
    lines::lemma_line_comma_period_same(model, g3, f.layout.comma_period_same);
    lemma_step(model, h, s3, "comma-period-same"@, flag_text(f.layout.comma_period_same));
    let s4 = s3 + line("comma-period-same"@, flag_text(f.layout.comma_period_same));
    let g4 = lines::with_comma_period_same(g3, f.layout.comma_period_same);
    lemma_merge_part9_a(g, f);
}

/// The second half of lines 9 after `s`.
spec fn saved_part9_b(s: Seq<char>, f: FeaturesView) -> Seq<char> {
    s
        + line("angle-sends-tilde"@, flag_text(f.layout.angle_sends_tilde))
        + line("tilde-sends-escape"@, flag_text(f.layout.tilde_sends_escape))
        + line("keyboard"@, lines::val_keyboard_language(f.layout.keyboard_language))
        + line("tabs"@, lines::val_tabs(f.layout.tabs))
}

/// `g` with the features that the second half of lines 9 carry taken from `f`.
#[verifier::opaque]
spec fn merge_part9_b(g: FeaturesView, f: FeaturesView) -> FeaturesView {
    FeaturesView {
        layout: LayoutView {
            angle_sends_tilde: f.layout.angle_sends_tilde,
            tilde_sends_escape: f.layout.tilde_sends_escape,
            keyboard_language: f.layout.keyboard_language,
            tabs: f.layout.tabs,
            ..g.layout
        },
        ..g
    }
}

/// What [`merge_part9_b`] keeps and what it sets, group by group.
proof fn lemma_frame_merge_part9_b(g: FeaturesView, f: FeaturesView)
    ensures
        merge_part9_b(g, f).global == g.global,
        merge_part9_b(g, f).display == g.display,
        merge_part9_b(g, f).screen == g.screen,
        merge_part9_b(g, f).general == g.general,
        merge_part9_b(g, f).line == g.line,
        merge_part9_b(g, f).modem == g.modem,
        merge_part9_b(g, f).keys == g.keys,
        merge_part9_b(g, f).layout == (LayoutView { angle_sends_tilde: f.layout.angle_sends_tilde, tilde_sends_escape: f.layout.tilde_sends_escape, keyboard_language: f.layout.keyboard_language, tabs: f.layout.tabs, ..g.layout }),
{
    reveal(merge_part9_b);
}

/// Setting the features one at a time gives [`merge_part9_b`].
proof fn lemma_merge_part9_b(g: FeaturesView, f: FeaturesView)
    ensures
        lines::with_tabs(lines::with_keyboard_language(lines::with_tilde_sends_escape(lines::with_angle_sends_tilde(g, f.layout.angle_sends_tilde), f.layout.tilde_sends_escape), f.layout.keyboard_language), f.layout.tabs) == merge_part9_b(g, f),
{
    reveal(merge_part9_b);
    reveal(lines::with_angle_sends_tilde);
    reveal(lines::with_tilde_sends_escape);
    reveal(lines::with_keyboard_language);
    reveal(lines::with_tabs);
}

/// The second half of lines 9, read after the lines before them.
#[verifier::spinoff_prover]
proof fn lemma_part9_b(model: Model, h: FeaturesView, s: Seq<char>, f: FeaturesView, g: FeaturesView)
    requires
        at_line_start(s),
        read_after(model, h, s) == g,
        f.layout.tabs.len() == (if g.display.columns_132 { 132nat } else { 80nat }),
        f.layout.tabs.len() > 0 ==> !f.layout.tabs[0],
    ensures
        at_line_start(saved_part9_b(s, f)),
        read_after(model, h, saved_part9_b(s, f)) == merge_part9_b(g, f),
{
    reveal(lines::with_angle_sends_tilde);
    reveal(lines::with_tilde_sends_escape);
    reveal(lines::with_keyboard_language);
    let s0 = s;
    let g0 = g;
    lines::lemma_line_angle_sends_tilde(model, g0, f.layout.angle_sends_tilde);
    lemma_step(model, h, s0, "angle-sends-tilde"@, flag_text(f.layout.angle_sends_tilde));
    let s1 = s0 + line("angle-sends-tilde"@, flag_text(f.layout.angle_sends_tilde));
    let g1 = lines::with_angle_sends_tilde(g0, f.layout.angle_sends_tilde);
    lines::lemma_line_tilde_sends_escape(model, g1, f.layout.tilde_sends_escape);
    lemma_step(model, h, s1, "tilde-sends-escape"@, flag_text(f.layout.tilde_sends_escape));
    let s2 = s1 + line("tilde-sends-escape"@, flag_text(f.layout.tilde_sends_escape));
    let g2 = lines::with_tilde_sends_escape(g1, f.layout.tilde_sends_escape);
    lines::lemma_line_keyboard_language(model, g2, f.layout.keyboard_language);
    lemma_step(model, h, s2, "keyboard"@, lines::val_keyboard_language(f.layout.keyboard_language));
    let s3 = s2 + line("keyboard"@, lines::val_keyboard_language(f.layout.keyboard_language));
    let g3 = lines::with_keyboard_language(g2, f.layout.keyboard_language);
    lines::lemma_line_tabs(model, g3, f.layout.tabs);
    lemma_step(model, h, s3, "tabs"@, lines::val_tabs(f.layout.tabs));
    let s4 = s3 + line("tabs"@, lines::val_tabs(f.layout.tabs));
    let g4 = lines::with_tabs(g3, f.layout.tabs);
    lemma_merge_part9_b(g, f);
}

/// `s` is empty or ends at a line end.
#[verifier::opaque]
spec fn at_line_start(s: Seq<char>) -> bool {
    s.len() == 0 || s.last() == '\n'
}

/// The features after the lines of `s`, read over `h`.
#[verifier::opaque]
spec fn read_after(model: Model, h: FeaturesView, s: Seq<char>) -> FeaturesView {
    apply_lines(model, h, text_lines(s))
}

/// One more saved line: the text still ends at a line end, and reading it
/// applies the line's setting after the lines before it.
proof fn lemma_step(model: Model, h: FeaturesView, s: Seq<char>, k: Seq<char>, v: Seq<char>)
    requires
        at_line_start(s),
        key_ok(k),
        clean(v),
    ensures
        at_line_start(s + line(k, v)),
        read_after(model, h, s + line(k, v)) == apply_setting(model, read_after(model, h, s), k, v),
{
    reveal(clean);
    reveal(key_ok);
    reveal(line);
    reveal(read_after);
    reveal(at_line_start);
    let x = k + seq!['='] + v;
    assert(clean(k)) by {
        assert forall|i: int| 0 <= i < k.len() implies #[trigger] k[i] != '\n' && k[i] != '\r' by {
            assert(!is_white(k[i]));
        }
    }
    lemma_clean_concat(k, seq!['=']);
    lemma_clean_concat(k + seq!['='], v);
    assert(line(k, v) == x + seq!['\n']);
    lemma_text_lines_line(s, x);
    lemma_apply_lines_push(model, h, text_lines(s), x);
    lemma_apply_line_kv(model, apply_lines(model, h, text_lines(s)), k, v);
}

/// Features as Set-Up holds them, whole in their saved lines: each value
/// one that Set-Up offers the model, and the keypad and cursor key modes
/// and the second session, which are not saved, as the factory set them.
pub open spec fn saved_valid(model: Model, f: FeaturesView) -> bool {
    &&& !f.global.two_sessions
    &&& !f.general.keypad_application
    &&& !f.general.cursor_keys_application
    &&& f.global.printer_session <= 2
    &&& (max_level(model) < 3 ==> f.display.status == StatusDisplay::NoDisplay)
    &&& page_length_offered(model, f.display.page_length as nat)
    &&& screen_lines_offered(f.screen.screen_lines as nat)
    &&& 1 <= f.screen.zero_style <= 3
    &&& saver_minutes_offered(f.screen.crt_saver_minutes as nat)
    &&& saver_minutes_offered(f.screen.energy_saver_minutes as nat)
    &&& terminal_mode_offered(model, f.general.terminal_mode)
    &&& (f.general.national ==> f.layout.keyboard_language is Some)
    &&& terminal_id_offered(model, f.general.terminal_id as nat)
    &&& 1 <= f.general.update <= 3
    &&& speed_offered(model, f.line.transmit_speed as nat)
    &&& (f.line.receive_speed matches Some(n) ==> speed_offered(model, n as nat))
    &&& (f.line.xoff matches Some(n) ==> n == 64 || n == 128)
    &&& f.line.transmit_flow <= 3
    &&& f.line.receive_flow <= 3
    &&& 1 <= f.line.transmit_rate <= 3
    &&& f.line.fkey_rate <= 3
    &&& (f.modem.modem_high_speed matches Some(n) ==> speed_offered(model, n as nat))
    &&& (f.modem.modem_low_speed matches Some(n) ==> speed_offered(model, n as nat))
    &&& f.modem.disconnect <= 2
    &&& (f.keys.auto_repeat_rate == 10 || f.keys.auto_repeat_rate == 30)
    &&& f.layout.local_keys.len() == 4
    &&& f.layout.tabs.len() == (if f.display.columns_132 { 132nat } else { 80nat })
    &&& !f.layout.tabs[0]
}

/// The saved text, half a group of lines at a time.
proof fn lemma_saved_text(f: FeaturesView)
    ensures
        features_text(f) == saved_part9_b(saved_part9_a(saved_part8_b(saved_part8_a(saved_part7_b(saved_part7_a(saved_part6_b(saved_part6_a(saved_part5_b(saved_part5_a(saved_part4_b(saved_part4_a(saved_part3_b(saved_part3_a(saved_part2_b(saved_part2_a(saved_part1_b(saved_part1_a(Seq::<char>::empty(), f), f), f), f), f), f), f), f), f), f), f), f), f), f), f), f), f), f),
{
    reveal(lines::val_printer_session);
    reveal(lines::val_columns_132);
    reveal(lines::val_scroll);
    reveal(lines::val_cursor_style);
    reveal(lines::val_status);
    reveal(lines::val_page_length);
    reveal(lines::val_screen_lines);
    reveal(lines::val_zero_style);
    reveal(lines::val_crt_saver_minutes);
    reveal(lines::val_energy_saver_minutes);
    reveal(lines::val_terminal_mode);
    reveal(lines::val_upss);
    reveal(lines::val_terminal_id);
    reveal(lines::val_update);
    reveal(lines::val_transmit_speed);
    reveal(lines::val_receive_speed);
    reveal(lines::val_xoff);
    reveal(lines::val_seven_bit_data);
    reveal(lines::val_parity);
    reveal(lines::val_two_stop_bits);
    reveal(lines::val_transmit_flow);
    reveal(lines::val_receive_flow);
    reveal(lines::val_transmit_rate);
    reveal(lines::val_fkey_rate);
    reveal(lines::val_modem_high_speed);
    reveal(lines::val_modem_low_speed);
    reveal(lines::val_disconnect);
    reveal(lines::val_answerback);
    reveal(lines::val_auto_repeat_rate);
    reveal(lines::val_keyclick);
    reveal(lines::val_margin_bell);
    reveal(lines::val_warning_bell);
    reveal(lines::val_compose);
    reveal(lines::val_local_keys);
    reveal(lines::val_break_key);
    reveal(lines::val_keyboard_language);
    reveal(lines::val_tabs);
}

/// The global features after every saved line over the factory settings.
#[verifier::spinoff_prover]
proof fn lemma_chain_global(model: Model, f: FeaturesView)
    requires
        saved_valid(model, f),
    ensures
        ({
            let c0 = factory_view(model);
            let c1 = merge_part1_a(c0, f);
            let c2 = merge_part1_b(c1, f);
            let c3 = merge_part2_a(c2, f);
            let c4 = merge_part2_b(c3, f);
            let c5 = merge_part3_a(c4, f);
            let c6 = merge_part3_b(c5, f);
            let c7 = merge_part4_a(c6, f);
            let c8 = merge_part4_b(c7, f);
            let c9 = merge_part5_a(c8, f);
            let c10 = merge_part5_b(c9, f);
            let c11 = merge_part6_a(c10, f);
            let c12 = merge_part6_b(c11, f);
            let c13 = merge_part7_a(c12, f);
            let c14 = merge_part7_b(c13, f);
            let c15 = merge_part8_a(c14, f);
            let c16 = merge_part8_b(c15, f);
            let c17 = merge_part9_a(c16, f);
            let c18 = merge_part9_b(c17, f);
            &&& c18.global == f.global
        }),
{
    let c0 = factory_view(model);
    lemma_frame_merge_part1_a(c0, f);
    let c1 = merge_part1_a(c0, f);
    lemma_frame_merge_part1_b(c1, f);
    let c2 = merge_part1_b(c1, f);
    lemma_frame_merge_part2_a(c2, f);
    let c3 = merge_part2_a(c2, f);
    lemma_frame_merge_part2_b(c3, f);
    let c4 = merge_part2_b(c3, f);
    lemma_frame_merge_part3_a(c4, f);
    let c5 = merge_part3_a(c4, f);
    lemma_frame_merge_part3_b(c5, f);
    let c6 = merge_part3_b(c5, f);
    lemma_frame_merge_part4_a(c6, f);
    let c7 = merge_part4_a(c6, f);
    lemma_frame_merge_part4_b(c7, f);
    let c8 = merge_part4_b(c7, f);
    lemma_frame_merge_part5_a(c8, f);
    let c9 = merge_part5_a(c8, f);
    lemma_frame_merge_part5_b(c9, f);
    let c10 = merge_part5_b(c9, f);
    lemma_frame_merge_part6_a(c10, f);
    let c11 = merge_part6_a(c10, f);
    lemma_frame_merge_part6_b(c11, f);
    let c12 = merge_part6_b(c11, f);
    lemma_frame_merge_part7_a(c12, f);
    let c13 = merge_part7_a(c12, f);
    lemma_frame_merge_part7_b(c13, f);
    let c14 = merge_part7_b(c13, f);
    lemma_frame_merge_part8_a(c14, f);
    let c15 = merge_part8_a(c14, f);
    lemma_frame_merge_part8_b(c15, f);
    let c16 = merge_part8_b(c15, f);
    lemma_frame_merge_part9_a(c16, f);
    let c17 = merge_part9_a(c16, f);
    lemma_frame_merge_part9_b(c17, f);
    let c18 = merge_part9_b(c17, f);
}

/// The display features after every saved line over the factory settings.
#[verifier::spinoff_prover]
proof fn lemma_chain_display(model: Model, f: FeaturesView)
    requires
        saved_valid(model, f),
    ensures
        ({
            let c0 = factory_view(model);
            let c1 = merge_part1_a(c0, f);
            let c2 = merge_part1_b(c1, f);
            let c3 = merge_part2_a(c2, f);
            let c4 = merge_part2_b(c3, f);
            let c5 = merge_part3_a(c4, f);
            let c6 = merge_part3_b(c5, f);
            let c7 = merge_part4_a(c6, f);
            let c8 = merge_part4_b(c7, f);
            let c9 = merge_part5_a(c8, f);
            let c10 = merge_part5_b(c9, f);
            let c11 = merge_part6_a(c10, f);
            let c12 = merge_part6_b(c11, f);
            let c13 = merge_part7_a(c12, f);
            let c14 = merge_part7_b(c13, f);
            let c15 = merge_part8_a(c14, f);
            let c16 = merge_part8_b(c15, f);
            let c17 = merge_part9_a(c16, f);
            let c18 = merge_part9_b(c17, f);
            &&& c18.display == f.display
            &&& (max_level(model) < 3 ==> c3.display.status == StatusDisplay::NoDisplay)
            &&& c17.display.columns_132 == f.display.columns_132
        }),
{
    let c0 = factory_view(model);
    lemma_frame_merge_part1_a(c0, f);
    let c1 = merge_part1_a(c0, f);
    lemma_frame_merge_part1_b(c1, f);
    let c2 = merge_part1_b(c1, f);
    lemma_frame_merge_part2_a(c2, f);
    let c3 = merge_part2_a(c2, f);
    lemma_frame_merge_part2_b(c3, f);
    let c4 = merge_part2_b(c3, f);
    lemma_frame_merge_part3_a(c4, f);
    let c5 = merge_part3_a(c4, f);
    lemma_frame_merge_part3_b(c5, f);
    let c6 = merge_part3_b(c5, f);
    lemma_frame_merge_part4_a(c6, f);
    let c7 = merge_part4_a(c6, f);
    lemma_frame_merge_part4_b(c7, f);
    let c8 = merge_part4_b(c7, f);
    lemma_frame_merge_part5_a(c8, f);
    let c9 = merge_part5_a(c8, f);
    lemma_frame_merge_part5_b(c9, f);
    let c10 = merge_part5_b(c9, f);
    lemma_frame_merge_part6_a(c10, f);
    let c11 = merge_part6_a(c10, f);
    lemma_frame_merge_part6_b(c11, f);
    let c12 = merge_part6_b(c11, f);
    lemma_frame_merge_part7_a(c12, f);
    let c13 = merge_part7_a(c12, f);
    lemma_frame_merge_part7_b(c13, f);
    let c14 = merge_part7_b(c13, f);
    lemma_frame_merge_part8_a(c14, f);
    let c15 = merge_part8_a(c14, f);
    lemma_frame_merge_part8_b(c15, f);
    let c16 = merge_part8_b(c15, f);
    lemma_frame_merge_part9_a(c16, f);
    let c17 = merge_part9_a(c16, f);
    lemma_frame_merge_part9_b(c17, f);
    let c18 = merge_part9_b(c17, f);
}

/// The screen features after every saved line over the factory settings.
#[verifier::spinoff_prover]
proof fn lemma_chain_screen(model: Model, f: FeaturesView)
    requires
        saved_valid(model, f),
    ensures
        ({
            let c0 = factory_view(model);
            let c1 = merge_part1_a(c0, f);
            let c2 = merge_part1_b(c1, f);
            let c3 = merge_part2_a(c2, f);
            let c4 = merge_part2_b(c3, f);
            let c5 = merge_part3_a(c4, f);
            let c6 = merge_part3_b(c5, f);
            let c7 = merge_part4_a(c6, f);
            let c8 = merge_part4_b(c7, f);
            let c9 = merge_part5_a(c8, f);
            let c10 = merge_part5_b(c9, f);
            let c11 = merge_part6_a(c10, f);
            let c12 = merge_part6_b(c11, f);
            let c13 = merge_part7_a(c12, f);
            let c14 = merge_part7_b(c13, f);
            let c15 = merge_part8_a(c14, f);
            let c16 = merge_part8_b(c15, f);
            let c17 = merge_part9_a(c16, f);
            let c18 = merge_part9_b(c17, f);
            &&& c18.screen == f.screen
        }),
{
    let c0 = factory_view(model);
    lemma_frame_merge_part1_a(c0, f);
    let c1 = merge_part1_a(c0, f);
    lemma_frame_merge_part1_b(c1, f);
    let c2 = merge_part1_b(c1, f);
    lemma_frame_merge_part2_a(c2, f);
    let c3 = merge_part2_a(c2, f);
    lemma_frame_merge_part2_b(c3, f);
    let c4 = merge_part2_b(c3, f);
    lemma_frame_merge_part3_a(c4, f);
    let c5 = merge_part3_a(c4, f);
    lemma_frame_merge_part3_b(c5, f);
    let c6 = merge_part3_b(c5, f);
    lemma_frame_merge_part4_a(c6, f);
    let c7 = merge_part4_a(c6, f);
    lemma_frame_merge_part4_b(c7, f);
    let c8 = merge_part4_b(c7, f);
    lemma_frame_merge_part5_a(c8, f);
    let c9 = merge_part5_a(c8, f);
    lemma_frame_merge_part5_b(c9, f);
    let c10 = merge_part5_b(c9, f);
    lemma_frame_merge_part6_a(c10, f);
    let c11 = merge_part6_a(c10, f);
    lemma_frame_merge_part6_b(c11, f);
    let c12 = merge_part6_b(c11, f);
    lemma_frame_merge_part7_a(c12, f);
    let c13 = merge_part7_a(c12, f);
    lemma_frame_merge_part7_b(c13, f);
    let c14 = merge_part7_b(c13, f);
    lemma_frame_merge_part8_a(c14, f);
    let c15 = merge_part8_a(c14, f);
    lemma_frame_merge_part8_b(c15, f);
    let c16 = merge_part8_b(c15, f);
    lemma_frame_merge_part9_a(c16, f);
    let c17 = merge_part9_a(c16, f);
    lemma_frame_merge_part9_b(c17, f);
    let c18 = merge_part9_b(c17, f);
}

/// The general features after every saved line over the factory settings.
#[verifier::spinoff_prover]
proof fn lemma_chain_general(model: Model, f: FeaturesView)
    requires
        saved_valid(model, f),
    ensures
        ({
            let c0 = factory_view(model);
            let c1 = merge_part1_a(c0, f);
            let c2 = merge_part1_b(c1, f);
            let c3 = merge_part2_a(c2, f);
            let c4 = merge_part2_b(c3, f);
            let c5 = merge_part3_a(c4, f);
            let c6 = merge_part3_b(c5, f);
            let c7 = merge_part4_a(c6, f);
            let c8 = merge_part4_b(c7, f);
            let c9 = merge_part5_a(c8, f);
            let c10 = merge_part5_b(c9, f);
            let c11 = merge_part6_a(c10, f);
            let c12 = merge_part6_b(c11, f);
            let c13 = merge_part7_a(c12, f);
            let c14 = merge_part7_b(c13, f);
            let c15 = merge_part8_a(c14, f);
            let c16 = merge_part8_b(c15, f);
            let c17 = merge_part9_a(c16, f);
            let c18 = merge_part9_b(c17, f);
            &&& c18.general == f.general
        }),
{
    let c0 = factory_view(model);
    lemma_frame_merge_part1_a(c0, f);
    let c1 = merge_part1_a(c0, f);
    lemma_frame_merge_part1_b(c1, f);
    let c2 = merge_part1_b(c1, f);
    lemma_frame_merge_part2_a(c2, f);
    let c3 = merge_part2_a(c2, f);
    lemma_frame_merge_part2_b(c3, f);
    let c4 = merge_part2_b(c3, f);
    lemma_frame_merge_part3_a(c4, f);
    let c5 = merge_part3_a(c4, f);
    lemma_frame_merge_part3_b(c5, f);
    let c6 = merge_part3_b(c5, f);
    lemma_frame_merge_part4_a(c6, f);
    let c7 = merge_part4_a(c6, f);
    lemma_frame_merge_part4_b(c7, f);
    let c8 = merge_part4_b(c7, f);
    lemma_frame_merge_part5_a(c8, f);
    let c9 = merge_part5_a(c8, f);
    lemma_frame_merge_part5_b(c9, f);
    let c10 = merge_part5_b(c9, f);
    lemma_frame_merge_part6_a(c10, f);
    let c11 = merge_part6_a(c10, f);
    lemma_frame_merge_part6_b(c11, f);
    let c12 = merge_part6_b(c11, f);
    lemma_frame_merge_part7_a(c12, f);
    let c13 = merge_part7_a(c12, f);
    lemma_frame_merge_part7_b(c13, f);
    let c14 = merge_part7_b(c13, f);
    lemma_frame_merge_part8_a(c14, f);
    let c15 = merge_part8_a(c14, f);
    lemma_frame_merge_part8_b(c15, f);
    let c16 = merge_part8_b(c15, f);
    lemma_frame_merge_part9_a(c16, f);
    let c17 = merge_part9_a(c16, f);
    lemma_frame_merge_part9_b(c17, f);
    let c18 = merge_part9_b(c17, f);
}

/// The line features after every saved line over the factory settings.
#[verifier::spinoff_prover]
proof fn lemma_chain_line(model: Model, f: FeaturesView)
    requires
        saved_valid(model, f),
    ensures
        ({
            let c0 = factory_view(model);
            let c1 = merge_part1_a(c0, f);
            let c2 = merge_part1_b(c1, f);
            let c3 = merge_part2_a(c2, f);
            let c4 = merge_part2_b(c3, f);
            let c5 = merge_part3_a(c4, f);
            let c6 = merge_part3_b(c5, f);
            let c7 = merge_part4_a(c6, f);
            let c8 = merge_part4_b(c7, f);
            let c9 = merge_part5_a(c8, f);
            let c10 = merge_part5_b(c9, f);
            let c11 = merge_part6_a(c10, f);
            let c12 = merge_part6_b(c11, f);
            let c13 = merge_part7_a(c12, f);
            let c14 = merge_part7_b(c13, f);
            let c15 = merge_part8_a(c14, f);
            let c16 = merge_part8_b(c15, f);
            let c17 = merge_part9_a(c16, f);
            let c18 = merge_part9_b(c17, f);
            &&& c18.line == f.line
        }),
{
    let c0 = factory_view(model);
    lemma_frame_merge_part1_a(c0, f);
    let c1 = merge_part1_a(c0, f);
    lemma_frame_merge_part1_b(c1, f);
    let c2 = merge_part1_b(c1, f);
    lemma_frame_merge_part2_a(c2, f);
    let c3 = merge_part2_a(c2, f);
    lemma_frame_merge_part2_b(c3, f);
    let c4 = merge_part2_b(c3, f);
    lemma_frame_merge_part3_a(c4, f);
    let c5 = merge_part3_a(c4, f);
    lemma_frame_merge_part3_b(c5, f);
    let c6 = merge_part3_b(c5, f);
    lemma_frame_merge_part4_a(c6, f);
    let c7 = merge_part4_a(c6, f);
    lemma_frame_merge_part4_b(c7, f);
    let c8 = merge_part4_b(c7, f);
    lemma_frame_merge_part5_a(c8, f);
    let c9 = merge_part5_a(c8, f);
    lemma_frame_merge_part5_b(c9, f);
    let c10 = merge_part5_b(c9, f);
    lemma_frame_merge_part6_a(c10, f);
    let c11 = merge_part6_a(c10, f);
    lemma_frame_merge_part6_b(c11, f);
    let c12 = merge_part6_b(c11, f);
    lemma_frame_merge_part7_a(c12, f);
    let c13 = merge_part7_a(c12, f);
    lemma_frame_merge_part7_b(c13, f);
    let c14 = merge_part7_b(c13, f);
    lemma_frame_merge_part8_a(c14, f);
    let c15 = merge_part8_a(c14, f);
    lemma_frame_merge_part8_b(c15, f);
    let c16 = merge_part8_b(c15, f);
    lemma_frame_merge_part9_a(c16, f);
    let c17 = merge_part9_a(c16, f);
    lemma_frame_merge_part9_b(c17, f);
    let c18 = merge_part9_b(c17, f);
}

/// The modem features after every saved line over the factory settings.
#[verifier::spinoff_prover]
proof fn lemma_chain_modem(model: Model, f: FeaturesView)
    requires
        saved_valid(model, f),
    ensures
        ({
            let c0 = factory_view(model);
            let c1 = merge_part1_a(c0, f);
            let c2 = merge_part1_b(c1, f);
            let c3 = merge_part2_a(c2, f);
            let c4 = merge_part2_b(c3, f);
            let c5 = merge_part3_a(c4, f);
            let c6 = merge_part3_b(c5, f);
            let c7 = merge_part4_a(c6, f);
            let c8 = merge_part4_b(c7, f);
            let c9 = merge_part5_a(c8, f);
            let c10 = merge_part5_b(c9, f);
            let c11 = merge_part6_a(c10, f);
            let c12 = merge_part6_b(c11, f);
            let c13 = merge_part7_a(c12, f);
            let c14 = merge_part7_b(c13, f);
            let c15 = merge_part8_a(c14, f);
            let c16 = merge_part8_b(c15, f);
            let c17 = merge_part9_a(c16, f);
            let c18 = merge_part9_b(c17, f);
            &&& c18.modem == f.modem
        }),
{
    let c0 = factory_view(model);
    lemma_frame_merge_part1_a(c0, f);
    let c1 = merge_part1_a(c0, f);
    lemma_frame_merge_part1_b(c1, f);
    let c2 = merge_part1_b(c1, f);
    lemma_frame_merge_part2_a(c2, f);
    let c3 = merge_part2_a(c2, f);
    lemma_frame_merge_part2_b(c3, f);
    let c4 = merge_part2_b(c3, f);
    lemma_frame_merge_part3_a(c4, f);
    let c5 = merge_part3_a(c4, f);
    lemma_frame_merge_part3_b(c5, f);
    let c6 = merge_part3_b(c5, f);
    lemma_frame_merge_part4_a(c6, f);
    let c7 = merge_part4_a(c6, f);
    lemma_frame_merge_part4_b(c7, f);
    let c8 = merge_part4_b(c7, f);
    lemma_frame_merge_part5_a(c8, f);
    let c9 = merge_part5_a(c8, f);
    lemma_frame_merge_part5_b(c9, f);
    let c10 = merge_part5_b(c9, f);
    lemma_frame_merge_part6_a(c10, f);
    let c11 = merge_part6_a(c10, f);
    lemma_frame_merge_part6_b(c11, f);
    let c12 = merge_part6_b(c11, f);
    lemma_frame_merge_part7_a(c12, f);
    let c13 = merge_part7_a(c12, f);
    lemma_frame_merge_part7_b(c13, f);
    let c14 = merge_part7_b(c13, f);
    lemma_frame_merge_part8_a(c14, f);
    let c15 = merge_part8_a(c14, f);
    lemma_frame_merge_part8_b(c15, f);
    let c16 = merge_part8_b(c15, f);
    lemma_frame_merge_part9_a(c16, f);
    let c17 = merge_part9_a(c16, f);
    lemma_frame_merge_part9_b(c17, f);
    let c18 = merge_part9_b(c17, f);
}

/// The keys features after every saved line over the factory settings.
#[verifier::spinoff_prover]
proof fn lemma_chain_keys(model: Model, f: FeaturesView)
    requires
        saved_valid(model, f),
    ensures
        ({
            let c0 = factory_view(model);
            let c1 = merge_part1_a(c0, f);
            let c2 = merge_part1_b(c1, f);
            let c3 = merge_part2_a(c2, f);
            let c4 = merge_part2_b(c3, f);
            let c5 = merge_part3_a(c4, f);
            let c6 = merge_part3_b(c5, f);
            let c7 = merge_part4_a(c6, f);
            let c8 = merge_part4_b(c7, f);
            let c9 = merge_part5_a(c8, f);
            let c10 = merge_part5_b(c9, f);
            let c11 = merge_part6_a(c10, f);
            let c12 = merge_part6_b(c11, f);
            let c13 = merge_part7_a(c12, f);
            let c14 = merge_part7_b(c13, f);
            let c15 = merge_part8_a(c14, f);
            let c16 = merge_part8_b(c15, f);
            let c17 = merge_part9_a(c16, f);
            let c18 = merge_part9_b(c17, f);
            &&& c18.keys == f.keys
        }),
{
    let c0 = factory_view(model);
    lemma_frame_merge_part1_a(c0, f);
    let c1 = merge_part1_a(c0, f);
    lemma_frame_merge_part1_b(c1, f);
    let c2 = merge_part1_b(c1, f);
    lemma_frame_merge_part2_a(c2, f);
    let c3 = merge_part2_a(c2, f);
    lemma_frame_merge_part2_b(c3, f);
    let c4 = merge_part2_b(c3, f);
    lemma_frame_merge_part3_a(c4, f);
    let c5 = merge_part3_a(c4, f);
    lemma_frame_merge_part3_b(c5, f);
    let c6 = merge_part3_b(c5, f);
    lemma_frame_merge_part4_a(c6, f);
    let c7 = merge_part4_a(c6, f);
    lemma_frame_merge_part4_b(c7, f);
    let c8 = merge_part4_b(c7, f);
    lemma_frame_merge_part5_a(c8, f);
    let c9 = merge_part5_a(c8, f);
    lemma_frame_merge_part5_b(c9, f);
    let c10 = merge_part5_b(c9, f);
    lemma_frame_merge_part6_a(c10, f);
    let c11 = merge_part6_a(c10, f);
    lemma_frame_merge_part6_b(c11, f);
    let c12 = merge_part6_b(c11, f);
    lemma_frame_merge_part7_a(c12, f);
    let c13 = merge_part7_a(c12, f);
    lemma_frame_merge_part7_b(c13, f);
    let c14 = merge_part7_b(c13, f);
    lemma_frame_merge_part8_a(c14, f);
    let c15 = merge_part8_a(c14, f);
    lemma_frame_merge_part8_b(c15, f);
    let c16 = merge_part8_b(c15, f);
    lemma_frame_merge_part9_a(c16, f);
    let c17 = merge_part9_a(c16, f);
    lemma_frame_merge_part9_b(c17, f);
    let c18 = merge_part9_b(c17, f);
}

/// The layout features after every saved line over the factory settings.
#[verifier::spinoff_prover]
proof fn lemma_chain_layout(model: Model, f: FeaturesView)
    requires
        saved_valid(model, f),
    ensures
        ({
            let c0 = factory_view(model);
            let c1 = merge_part1_a(c0, f);
            let c2 = merge_part1_b(c1, f);
            let c3 = merge_part2_a(c2, f);
            let c4 = merge_part2_b(c3, f);
            let c5 = merge_part3_a(c4, f);
            let c6 = merge_part3_b(c5, f);
            let c7 = merge_part4_a(c6, f);
            let c8 = merge_part4_b(c7, f);
            let c9 = merge_part5_a(c8, f);
            let c10 = merge_part5_b(c9, f);
            let c11 = merge_part6_a(c10, f);
            let c12 = merge_part6_b(c11, f);
            let c13 = merge_part7_a(c12, f);
            let c14 = merge_part7_b(c13, f);
            let c15 = merge_part8_a(c14, f);
            let c16 = merge_part8_b(c15, f);
            let c17 = merge_part9_a(c16, f);
            let c18 = merge_part9_b(c17, f);
            &&& c18.layout == f.layout
            &&& c16.layout.local_keys.len() == f.layout.local_keys.len()
        }),
{
    let c0 = factory_view(model);
    lemma_frame_merge_part1_a(c0, f);
    let c1 = merge_part1_a(c0, f);
    lemma_frame_merge_part1_b(c1, f);
    let c2 = merge_part1_b(c1, f);
    lemma_frame_merge_part2_a(c2, f);
    let c3 = merge_part2_a(c2, f);
    lemma_frame_merge_part2_b(c3, f);
    let c4 = merge_part2_b(c3, f);
    lemma_frame_merge_part3_a(c4, f);
    let c5 = merge_part3_a(c4, f);
    lemma_frame_merge_part3_b(c5, f);
    let c6 = merge_part3_b(c5, f);
    lemma_frame_merge_part4_a(c6, f);
    let c7 = merge_part4_a(c6, f);
    lemma_frame_merge_part4_b(c7, f);
    let c8 = merge_part4_b(c7, f);
    lemma_frame_merge_part5_a(c8, f);
    let c9 = merge_part5_a(c8, f);
    lemma_frame_merge_part5_b(c9, f);
    let c10 = merge_part5_b(c9, f);
    lemma_frame_merge_part6_a(c10, f);
    let c11 = merge_part6_a(c10, f);
    lemma_frame_merge_part6_b(c11, f);
    let c12 = merge_part6_b(c11, f);
    lemma_frame_merge_part7_a(c12, f);
    let c13 = merge_part7_a(c12, f);
    lemma_frame_merge_part7_b(c13, f);
    let c14 = merge_part7_b(c13, f);
    lemma_frame_merge_part8_a(c14, f);
    let c15 = merge_part8_a(c14, f);
    lemma_frame_merge_part8_b(c15, f);
    let c16 = merge_part8_b(c15, f);
    lemma_frame_merge_part9_a(c16, f);
    let c17 = merge_part9_a(c16, f);
    lemma_frame_merge_part9_b(c17, f);
    let c18 = merge_part9_b(c17, f);
}

/// Saved features read back: reading the text [`Features::to_text`] writes,
/// for the model it was written on, gives the features again.
#[verifier::spinoff_prover]
pub proof fn lemma_features_survive_saving(model: Model, f: FeaturesView)
    requires
        saved_valid(model, f),
    ensures
        features_from_text(model, features_text(f)) == f,
{
    let h = factory_view(model);
    lemma_chain_global(model, f);
    lemma_chain_display(model, f);
    lemma_chain_screen(model, f);
    lemma_chain_general(model, f);
    lemma_chain_line(model, f);
    lemma_chain_modem(model, f);
    lemma_chain_keys(model, f);
    lemma_chain_layout(model, f);
    let s0 = Seq::<char>::empty();
    let g0 = h;
    assert(at_line_start(s0)) by {
        reveal(at_line_start);
    }
    assert(read_after(model, h, s0) == h) by {
        reveal(read_after);
        assert(text_lines(s0) =~= Seq::<Seq<char>>::empty());
    }
    lemma_part1_a(model, h, s0, f, g0);
    let s1 = saved_part1_a(s0, f);
    let g1 = merge_part1_a(g0, f);
    lemma_part1_b(model, h, s1, f, g1);
    let s2 = saved_part1_b(s1, f);
    let g2 = merge_part1_b(g1, f);
    lemma_part2_a(model, h, s2, f, g2);
    let s3 = saved_part2_a(s2, f);
    let g3 = merge_part2_a(g2, f);
    lemma_part2_b(model, h, s3, f, g3);
    let s4 = saved_part2_b(s3, f);
    let g4 = merge_part2_b(g3, f);
    lemma_part3_a(model, h, s4, f, g4);
    let s5 = saved_part3_a(s4, f);
    let g5 = merge_part3_a(g4, f);
    lemma_part3_b(model, h, s5, f, g5);
    let s6 = saved_part3_b(s5, f);
    let g6 = merge_part3_b(g5, f);
    lemma_part4_a(model, h, s6, f, g6);
    let s7 = saved_part4_a(s6, f);
    let g7 = merge_part4_a(g6, f);
    lemma_part4_b(model, h, s7, f, g7);
    let s8 = saved_part4_b(s7, f);
    let g8 = merge_part4_b(g7, f);
    lemma_part5_a(model, h, s8, f, g8);
    let s9 = saved_part5_a(s8, f);
    let g9 = merge_part5_a(g8, f);
    lemma_part5_b(model, h, s9, f, g9);
    let s10 = saved_part5_b(s9, f);
    let g10 = merge_part5_b(g9, f);
    lemma_part6_a(model, h, s10, f, g10);
    let s11 = saved_part6_a(s10, f);
    let g11 = merge_part6_a(g10, f);
    lemma_part6_b(model, h, s11, f, g11);
    let s12 = saved_part6_b(s11, f);
    let g12 = merge_part6_b(g11, f);
    lemma_part7_a(model, h, s12, f, g12);
    let s13 = saved_part7_a(s12, f);
    let g13 = merge_part7_a(g12, f);
    lemma_part7_b(model, h, s13, f, g13);
    let s14 = saved_part7_b(s13, f);
    let g14 = merge_part7_b(g13, f);
    lemma_part8_a(model, h, s14, f, g14);
    let s15 = saved_part8_a(s14, f);
    let g15 = merge_part8_a(g14, f);
    lemma_part8_b(model, h, s15, f, g15);
    let s16 = saved_part8_b(s15, f);
    let g16 = merge_part8_b(g15, f);
    lemma_part9_a(model, h, s16, f, g16);
    let s17 = saved_part9_a(s16, f);
    let g17 = merge_part9_a(g16, f);
    lemma_part9_b(model, h, s17, f, g17);
    let s18 = saved_part9_b(s17, f);
    let g18 = merge_part9_b(g17, f);
    lemma_saved_text(f);
    assert(features_from_text(model, features_text(f)) == settle(read_after(model, h, s18))) by {
        reveal(read_after);
    }
}

} // verus!
