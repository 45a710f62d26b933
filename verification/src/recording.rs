//! Session recordings (`.vtrec`): what a host sent, what the terminal
//! answered, optionally what was typed, and named checkpoints, so a real
//! session can be replayed through the emulator and its screens compared.
//!
//! The format is line-oriented text:
//!
//! ```text
//! vtrec 1
//! config model=vt420 rows=24 cols=80 autowrap=0 newline=0 status=indicator ...
//! H 1520 G1tIAA==        bytes from the host, milliseconds from the start
//! R 1521 G1s/NjRjCg==    replies the terminal sent
//! K 3100 cw==            typed keys (only when keys are recorded)
//! M 4200 edt-help        a checkpoint
//! ```
//!
//! Data is base64. Unknown record types and configuration keys are ignored,
//! so later versions can add to the format. Writing the file and the clock
//! belong to the application; this module builds and reads the lines.

use vstd::prelude::*;
use crate::charset::Nrc;
use crate::config::{ascii_lower, exact_name, Config, Extensions, Model, StatusDisplay, Supplemental};
use crate::text::{
    chars_equal, chars_slice, dec, find_c, find_char_from, is_digit, is_white, lemma_dec_digits, lemma_find_c, lemma_parse_dec, parse_uint, parse_uint_chars,
    push_all, push_dec, push_str, str_chars, string_from, trim_c, trim_chars, white,
};

verus! {

/// The base64 digit of a six-bit value.
pub open spec fn b64_char(v: u32) -> char {
    if v < 26 {
        (65 + v) as char
    } else if v < 52 {
        (97 + v - 26) as char
    } else if v < 62 {
        (48 + v - 52) as char
    } else if v == 62 {
        '+'
    } else {
        '/'
    }
}

/// The six-bit value of a base64 digit.
pub open spec fn b64_value(c: char) -> Option<u32> {
    if 'A' <= c <= 'Z' {
        Some((c as u32 - 65) as u32)
    } else if 'a' <= c <= 'z' {
        Some((c as u32 - 97 + 26) as u32)
    } else if '0' <= c <= '9' {
        Some((c as u32 - 48 + 52) as u32)
    } else if c == '+' {
        Some(62)
    } else if c == '/' {
        Some(63)
    } else {
        None
    }
}

/// The four digits of a three-byte group.
pub open spec fn enc3(b0: u8, b1: u8, b2: u8) -> Seq<char> {
    let n: u32 = ((b0 as u32) << 16) | ((b1 as u32) << 8) | (b2 as u32);
    seq![b64_char((n >> 18) & 63), b64_char((n >> 12) & 63), b64_char((n >> 6) & 63), b64_char(n & 63)]
}

/// The digits of `d` without padding: four per three bytes, and two or
/// three for a last group of one or two bytes.
pub open spec fn b64_body(d: Seq<u8>) -> Seq<char>
    decreases d.len(),
{
    if d.len() == 0 {
        Seq::empty()
    } else if d.len() >= 3 {
        enc3(d[0], d[1], d[2]) + b64_body(d.subrange(3, d.len() as int))
    } else if d.len() == 2 {
        enc3(d[0], d[1], 0).subrange(0, 3)
    } else {
        enc3(d[0], 0, 0).subrange(0, 2)
    }
}

/// The padding after the digits: `=` to a multiple of four.
pub open spec fn b64_padding(d: Seq<u8>) -> Seq<char> {
    if d.len() % 3 == 1 {
        seq!['=', '=']
    } else if d.len() % 3 == 2 {
        seq!['=']
    } else {
        Seq::empty()
    }
}

/// Standard base64 with padding.
pub open spec fn b64_encode(d: Seq<u8>) -> Seq<char> {
    b64_body(d) + b64_padding(d)
}

/// The decoder's state: the bits read so far (the low 32 kept), how many of
/// them are not yet a byte, and the bytes.
pub type B64State = (u32, u32, Seq<u8>);

/// The state after one more digit.
pub open spec fn b64_step(st: B64State, v: u32) -> B64State {
    let acc: u32 = (st.0 << 6u32) | v;
    let bits: u32 = (st.1 + 6) as u32;
    if bits >= 8 {
        (acc, (bits - 8) as u32, st.2.push((acc >> ((bits - 8) as u32)) as u8))
    } else {
        (acc, bits, st.2)
    }
}

/// Reads digits from a state; `None` at a character that is no digit.
pub open spec fn b64_run(st: B64State, t: Seq<char>) -> Option<B64State>
    decreases t.len(),
{
    if t.len() == 0 {
        Some(st)
    } else {
        match b64_value(t[0]) {
            None => None,
            Some(v) => b64_run(b64_step(st, v), t.drop_first()),
        }
    }
}

/// `t` without trailing `=`.
pub open spec fn trim_padding(t: Seq<char>) -> Seq<char>
    decreases t.len(),
{
    if t.len() > 0 && t.last() == '=' { trim_padding(t.drop_last()) } else { t }
}

/// The bytes of base64 text: trailing `=` dropped, each digit six bits,
/// each full eight bits a byte; `None` when a character is no digit.
pub open spec fn b64_decode(t: Seq<char>) -> Option<Seq<u8>> {
    match b64_run((0, 0, Seq::empty()), trim_padding(t)) {
        Some(st) => Some(st.2),
        None => None,
    }
}

fn b64_digit(v: u32) -> (c: char)
    requires
        v < 64,
    ensures
        c == b64_char(v),
{
    if v < 26 {
        let b = (65 + v) as u8;
        b as char
    } else if v < 52 {
        let b = (97 + v - 26) as u8;
        b as char
    } else if v < 62 {
        let b = (48 + v - 52) as u8;
        b as char
    } else if v == 62 {
        '+'
    } else {
        '/'
    }
}

fn b64_value_of(c: char) -> (r: Option<u32>)
    ensures
        r == b64_value(c),
{
    if 'A' <= c && c <= 'Z' {
        Some(c as u32 - 65)
    } else if 'a' <= c && c <= 'z' {
        Some(c as u32 - 97 + 26)
    } else if '0' <= c && c <= '9' {
        Some(c as u32 - 48 + 52)
    } else if c == '+' {
        Some(62)
    } else if c == '/' {
        Some(63)
    } else {
        None
    }
}

/// Base64 text of `data`, with padding.
pub fn base64_encode(data: &[u8]) -> (r: String)
    ensures
        r@ == b64_encode(data@),
{
    let mut out: Vec<char> = Vec::new();
    let mut i: usize = 0;
    let n = data.len();
    assert(data@.subrange(0, n as int) =~= data@);
    while i < n
        invariant
            i <= n,
            n == data@.len(),
            b64_body(data@) == out@ + b64_body(data@.subrange(i as int, n as int)),
        decreases n - i,
    {
        let left = n - i;
        let b0 = data[i];
        let b1: u8 = if left > 1 { data[i + 1] } else { 0 };
        let b2: u8 = if left > 2 { data[i + 2] } else { 0 };
        let g: u32 = ((b0 as u32) << 16) | ((b1 as u32) << 8) | (b2 as u32);
        proof {
            assert(((g >> 18) & 63) < 64 && ((g >> 12) & 63) < 64 && ((g >> 6) & 63) < 64 && (g & 63) < 64)
                by (bit_vector);
        }
        let c0 = b64_digit((g >> 18) & 63);
        let c1 = b64_digit((g >> 12) & 63);
        let c2 = b64_digit((g >> 6) & 63);
        let c3 = b64_digit(g & 63);
        let ghost rest = data@.subrange(i as int, n as int);
        let ghost before = out@;
        proof {
            assert(rest[0] == b0);
            if left > 1 {
                assert(rest[1] == b1);
            }
            if left > 2 {
                assert(rest[2] == b2);
            }
        }
        if left >= 3 {
            out.push(c0);
            out.push(c1);
            out.push(c2);
            out.push(c3);
            proof {
                assert(rest.subrange(3, rest.len() as int) =~= data@.subrange(i + 3, n as int));
                assert(out@ =~= before + enc3(b0, b1, b2));
            }
            i = i + 3;
        } else if left == 2 {
            out.push(c0);
            out.push(c1);
            out.push(c2);
            proof {
                assert(out@ =~= before + enc3(b0, b1, 0).subrange(0, 3));
                assert(data@.subrange(n as int, n as int) =~= Seq::<u8>::empty());
            }
            i = n;
        } else {
            out.push(c0);
            out.push(c1);
            proof {
                assert(out@ =~= before + enc3(b0, 0, 0).subrange(0, 2));
                assert(data@.subrange(n as int, n as int) =~= Seq::<u8>::empty());
            }
            i = n;
        }
    }
    assert(data@.subrange(n as int, n as int) =~= Seq::<u8>::empty());
    let ghost body = out@;
    if n % 3 == 1 {
        out.push('=');
        out.push('=');
    } else if n % 3 == 2 {
        out.push('=');
    }
    assert(out@ =~= b64_encode(data@));
    crate::text::string_from(&out)
}

/// The bytes of base64 text, or `None` when it holds a character that is
/// no base64 digit (after the trailing `=`).
pub fn base64_decode(text: &str) -> (r: Option<Vec<u8>>)
    ensures
        match b64_decode(text@) {
            Some(d) => r matches Some(v) && v@ == d,
            None => r is None,
        },
{
    let t = crate::text::str_chars(text);
    let mut end: usize = t.len();
    proof {
        assert(t@.subrange(0, end as int) =~= t@);
    }
    while end > 0 && t[end - 1] == '='
        invariant
            end <= t@.len(),
            trim_padding(t@) == trim_padding(t@.subrange(0, end as int)),
        decreases end,
    {
        proof {
            assert(t@.subrange(0, end as int).drop_last() =~= t@.subrange(0, end - 1));
        }
        end = end - 1;
    }
    let ghost body = t@.subrange(0, end as int);
    proof {
        if body.len() > 0 {
            assert(body.last() == t@[end - 1]);
        }
        assert(trim_padding(body) == body);
    }
    let mut acc: u32 = 0;
    let mut bits: u32 = 0;
    let mut out: Vec<u8> = Vec::new();
    let mut i: usize = 0;
    assert(body.subrange(0, end as int) =~= body);
    while i < end
        invariant
            i <= end,
            end <= t@.len(),
            body == t@.subrange(0, end as int),
            bits < 8,
            t@ == text@,
            trim_padding(t@) == body,
            b64_run((0, 0, Seq::empty()), body) == b64_run((acc, bits, out@), body.subrange(i as int, end as int)),
        decreases end - i,
    {
        let ghost rest = body.subrange(i as int, end as int);
        proof {
            assert(rest[0] == t@[i as int]);
            assert(rest.drop_first() =~= body.subrange(i + 1, end as int));
        }
        let v = match b64_value_of(t[i]) {
            Some(v) => v,
            None => {
                assert(b64_run((acc, bits, out@), rest) is None);
                assert(trim_padding(text@) == body);
                return None;
            },
        };
        let ghost st = (acc, bits, out@);
        acc = (acc << 6u32) | v;
        bits = bits + 6;
        if bits >= 8 {
            bits = bits - 8;
            out.push((acc >> bits) as u8);
        }
        assert((acc, bits, out@) == b64_step(st, v));
        i = i + 1;
    }
    proof {
        assert(body.subrange(end as int, end as int) =~= Seq::<char>::empty());
    }
    Some(out)
}

proof fn lemma_b64_value_char(v: u32)
    requires
        v < 64,
    ensures
        b64_value(b64_char(v)) == Some(v),
        b64_char(v) != '=',
        !is_white(b64_char(v)),
{
}

proof fn lemma_group_bits(acc: u32, b0: u8, b1: u8, b2: u8, n: u32, a1: u32, a2: u32, a3: u32, a4: u32)
    by (bit_vector)
    requires
        n == ((b0 as u32) << 16) | ((b1 as u32) << 8) | (b2 as u32),
        a1 == (acc << 6u32) | ((n >> 18) & 63),
        a2 == (a1 << 6u32) | ((n >> 12) & 63),
        a3 == (a2 << 6u32) | ((n >> 6) & 63),
        a4 == (a3 << 6u32) | (n & 63),
    ensures
        (a2 >> 4u32) as u8 == b0,
        (a3 >> 2u32) as u8 == b1,
        (a4 >> 0u32) as u8 == b2,
        ((n >> 18) & 63) < 64,
        ((n >> 12) & 63) < 64,
        ((n >> 6) & 63) < 64,
        (n & 63) < 64,
{
}

/// Reading two texts one after the other reads their concatenation.
proof fn lemma_b64_run_concat(st: B64State, a: Seq<char>, b: Seq<char>)
    ensures
        b64_run(st, a + b) == match b64_run(st, a) {
            Some(s2) => b64_run(s2, b),
            None => None,
        },
    decreases a.len(),
{
    if a.len() > 0 {
        assert((a + b)[0] == a[0]);
        assert((a + b).drop_first() =~= a.drop_first() + b);
        match b64_value(a[0]) {
            Some(v) => lemma_b64_run_concat(b64_step(st, v), a.drop_first(), b),
            None => {},
        }
    } else {
        assert(a + b =~= b);
    }
}

proof fn lemma_six_bits(n: u32)
    by (bit_vector)
    ensures
        ((n >> 18) & 63) < 64,
        ((n >> 12) & 63) < 64,
        ((n >> 6) & 63) < 64,
        (n & 63) < 64,
{
}

/// Reading the first digits of `t`, one step each.
proof fn lemma_run_digits(st: B64State, t: Seq<char>, vs: Seq<u32>)
    requires
        vs.len() <= t.len(),
        forall|i: int| 0 <= i < vs.len() ==> b64_value(#[trigger] t[i]) == Some(vs[i]),
    ensures
        b64_run(st, t) == b64_run(steps(st, vs), t.subrange(vs.len() as int, t.len() as int)),
    decreases vs.len(),
{
    if vs.len() == 0 {
        assert(t.subrange(0, t.len() as int) =~= t);
    } else {
        assert(b64_value(t[0]) == Some(vs[0]));
        let t1 = t.drop_first();
        let vs1 = vs.drop_first();
        assert forall|i: int| 0 <= i < vs1.len() implies b64_value(#[trigger] t1[i]) == Some(vs1[i]) by {
            assert(t1[i] == t[i + 1]);
            assert(vs1[i] == vs[i + 1]);
        }
        lemma_run_digits(b64_step(st, vs[0]), t1, vs1);
        assert(t1.subrange(vs1.len() as int, t1.len() as int) =~= t.subrange(vs.len() as int, t.len() as int));
    }
}

/// The state after several digits.
pub open spec fn steps(st: B64State, vs: Seq<u32>) -> B64State
    decreases vs.len(),
{
    if vs.len() == 0 {
        st
    } else {
        steps(b64_step(st, vs[0]), vs.drop_first())
    }
}

/// Reading the digits of `d` from a state with no pending bits appends `d`.
proof fn lemma_b64_body_run(acc: u32, out: Seq<u8>, d: Seq<u8>)
    ensures
        b64_run((acc, 0, out), b64_body(d)) matches Some(st) && st.2 == out + d,
    decreases d.len(),
{
    if d.len() == 0 {
        assert(out + d =~= out);
    } else {
        let b0 = d[0];
        let b1: u8 = if d.len() > 1 { d[1] } else { 0 };
        let b2: u8 = if d.len() > 2 { d[2] } else { 0 };
        let n: u32 = ((b0 as u32) << 16) | ((b1 as u32) << 8) | (b2 as u32);
        let v0 = (n >> 18) & 63;
        let v1 = (n >> 12) & 63;
        let v2 = (n >> 6) & 63;
        let v3 = n & 63;
        let a1: u32 = (acc << 6u32) | v0;
        let a2: u32 = (a1 << 6u32) | v1;
        let a3: u32 = (a2 << 6u32) | v2;
        let a4: u32 = (a3 << 6u32) | v3;
        lemma_group_bits(acc, b0, b1, b2, n, a1, a2, a3, a4);
        lemma_b64_value_char(v0);
        lemma_b64_value_char(v1);
        lemma_b64_value_char(v2);
        lemma_b64_value_char(v3);
        let g = enc3(b0, b1, b2);
        let st0: B64State = (acc, 0, out);
        let s1 = b64_step(st0, v0);
        let s2 = b64_step(s1, v1);
        let s3 = b64_step(s2, v2);
        let s4 = b64_step(s3, v3);
        assert(s1 == (a1, 6u32, out));
        assert(s2 == (a2, 4u32, out.push(b0)));
        assert(s3 == (a3, 2u32, out.push(b0).push(b1)));
        assert(s4 == (a4, 0u32, out.push(b0).push(b1).push(b2)));
        if d.len() >= 3 {
            let rest = d.subrange(3, d.len() as int);
            let t = g + b64_body(rest);
            assert(b1 == d[1] && b2 == d[2]);
            assert(t == b64_body(d));
            let vs = seq![v0, v1, v2, v3];
            assert(steps(st0, vs) == s4) by {
                reveal_with_fuel(steps, 5);
                assert(vs.drop_first() =~= seq![v1, v2, v3]);
                assert(vs.drop_first().drop_first() =~= seq![v2, v3]);
                assert(vs.drop_first().drop_first().drop_first() =~= seq![v3]);
                assert(vs.drop_first().drop_first().drop_first().drop_first() =~= Seq::<u32>::empty());
            }
            lemma_run_digits(st0, t, vs);
            assert(t.subrange(4, t.len() as int) =~= b64_body(rest));
            lemma_b64_body_run(a4, out.push(b0).push(b1).push(b2), rest);
            assert(out.push(b0).push(b1).push(b2) + rest =~= out + d);
        } else if d.len() == 2 {
            let t = g.subrange(0, 3);
            let vs = seq![v0, v1, v2];
            assert(steps(st0, vs) == s3) by {
                reveal_with_fuel(steps, 4);
                assert(vs.drop_first() =~= seq![v1, v2]);
                assert(vs.drop_first().drop_first() =~= seq![v2]);
                assert(vs.drop_first().drop_first().drop_first() =~= Seq::<u32>::empty());
            }
            lemma_run_digits(st0, t, vs);
            assert(t.subrange(3, 3) =~= Seq::<char>::empty());
            assert(out.push(b0).push(b1) =~= out + d);
        } else {
            let t = g.subrange(0, 2);
            let vs = seq![v0, v1];
            assert(steps(st0, vs) == s2) by {
                reveal_with_fuel(steps, 3);
                assert(vs.drop_first() =~= seq![v1]);
                assert(vs.drop_first().drop_first() =~= Seq::<u32>::empty());
            }
            lemma_run_digits(st0, t, vs);
            assert(t.subrange(2, 2) =~= Seq::<char>::empty());
            assert(out.push(b0) =~= out + d);
        }
    }
}

/// Every character of the digits is a base64 digit.
proof fn lemma_b64_body_digits(d: Seq<u8>)
    ensures
        forall|i: int| 0 <= i < b64_body(d).len() ==> #[trigger] b64_body(d)[i] != '=',
        forall|i: int| 0 <= i < b64_body(d).len() ==> !is_white(#[trigger] b64_body(d)[i]),
        d.len() > 0 ==> b64_body(d).len() > 0,
    decreases d.len(),
{
    if d.len() > 0 {
        let b0 = d[0];
        let b1: u8 = if d.len() > 1 { d[1] } else { 0 };
        let b2: u8 = if d.len() > 2 { d[2] } else { 0 };
        let n: u32 = ((b0 as u32) << 16) | ((b1 as u32) << 8) | (b2 as u32);
        lemma_six_bits(n);
        lemma_b64_value_char((n >> 18) & 63);
        lemma_b64_value_char((n >> 12) & 63);
        lemma_b64_value_char((n >> 6) & 63);
        lemma_b64_value_char(n & 63);
        if d.len() >= 3 {
            let rest = d.subrange(3, d.len() as int);
            lemma_b64_body_digits(rest);
            let g = enc3(b0, b1, b2);
            assert forall|i: int| 0 <= i < b64_body(d).len() implies #[trigger] b64_body(d)[i] != '=' && !is_white(
                b64_body(d)[i],
            ) by {
                if i >= 4 {
                    assert(b64_body(d)[i] == b64_body(rest)[i - 4]);
                }
            }
        }
    }
}

/// Base64 text reads back as the bytes it was written from.
pub proof fn lemma_base64_round_trip(d: Seq<u8>)
    ensures
        b64_decode(b64_encode(d)) == Some(d),
{
    let body = b64_body(d);
    lemma_b64_body_digits(d);
    let pad = b64_padding(d);
    assert(trim_padding(body) == body) by {
        if body.len() > 0 {
            assert(body.last() == body[body.len() - 1]);
        }
    }
    if pad.len() == 2 {
        let x = body + pad;
        assert(x.last() == '=');
        assert(x.drop_last() =~= body + seq!['=']);
        let y = body + seq!['='];
        assert(y.last() == '=');
        assert(y.drop_last() =~= body);
        assert(trim_padding(y) == trim_padding(body));
        assert(trim_padding(x) == trim_padding(y));
    } else if pad.len() == 1 {
        let x = body + pad;
        assert(x.last() == '=');
        assert(x.drop_last() =~= body);
        assert(trim_padding(x) == trim_padding(body));
    } else {
        assert(body + pad =~= body);
    }
    assert(trim_padding(body + pad) == body);
    lemma_b64_body_run(0, Seq::empty(), d);
    assert(Seq::<u8>::empty() + d =~= d);
}

/// One line of a recording.
#[derive(Debug, Clone, PartialEq, Eq)]
pub enum Record {
    Host { ms: u64, data: Vec<u8> },
    Reply { ms: u64, data: Vec<u8> },
    Keys { ms: u64, data: Vec<u8> },
    Mark { ms: u64, name: String },
}

/// What a record holds.
pub ghost enum RecordView {
    Host(u64, Seq<u8>),
    Reply(u64, Seq<u8>),
    Keys(u64, Seq<u8>),
    Mark(u64, Seq<char>),
}

pub open spec fn record_view(r: Record) -> RecordView {
    match r {
        Record::Host { ms, data } => RecordView::Host(ms, data@),
        Record::Reply { ms, data } => RecordView::Reply(ms, data@),
        Record::Keys { ms, data } => RecordView::Keys(ms, data@),
        Record::Mark { ms, name } => RecordView::Mark(ms, name@),
    }
}

/// A checkpoint name usable as a file name: ASCII letters, digits, `-` and
/// `_` kept, every other character a `-`; `checkpoint` for an empty name.
pub open spec fn sanitized(name: Seq<char>) -> Seq<char> {
    if name.len() == 0 {
        "checkpoint"@
    } else {
        name.map_values(
            |c: char|
                if ('a' <= c <= 'z') || ('A' <= c <= 'Z') || ('0' <= c <= '9') || c == '-' || c == '_' {
                    c
                } else {
                    '-'
                },
        )
    }
}

/// A checkpoint name usable as a file name.
pub fn sanitize(name: &str) -> (r: String)
    ensures
        r@ == sanitized(name@),
{
    let cs = str_chars(name);
    if cs.len() == 0 {
        return String::from_str("checkpoint");
    }
    let mut out: Vec<char> = Vec::new();
    let mut i: usize = 0;
    while i < cs.len()
        invariant
            i <= cs@.len(),
            cs@ == name@,
            out@ == sanitized(cs@).subrange(0, i as int),
            cs@.len() > 0,
        decreases cs@.len() - i,
    {
        let c = cs[i];
        let k = if ('a' <= c && c <= 'z') || ('A' <= c && c <= 'Z') || ('0' <= c && c <= '9') || c == '-' || c == '_' {
            c
        } else {
            '-'
        };
        out.push(k);
        i = i + 1;
        assert(out@ =~= sanitized(cs@).subrange(0, i as int));
    }
    assert(sanitized(cs@).subrange(0, i as int) =~= sanitized(cs@));
    string_from(&out)
}

/// The name a keyboard language is recorded under.
pub open spec fn nrc_name_spec(n: Nrc) -> Seq<char> {
    match n {
        Nrc::British => "british"@,
        Nrc::Dutch => "dutch"@,
        Nrc::Finnish => "finnish"@,
        Nrc::French => "french"@,
        Nrc::FrenchCanadian => "french-canadian"@,
        Nrc::German => "german"@,
        Nrc::Italian => "italian"@,
        Nrc::NorwegianDanish => "norwegian-danish"@,
        Nrc::Portuguese => "portuguese"@,
        Nrc::Spanish => "spanish"@,
        Nrc::Swedish => "swedish"@,
        Nrc::Swiss => "swiss"@,
    }
}

/// The keyboard language recorded as `v`.
pub open spec fn nrc_named(v: Seq<char>) -> Option<Nrc> {
    if v == "british"@ {
        Some(Nrc::British)
    } else if v == "dutch"@ {
        Some(Nrc::Dutch)
    } else if v == "finnish"@ {
        Some(Nrc::Finnish)
    } else if v == "french"@ {
        Some(Nrc::French)
    } else if v == "french-canadian"@ {
        Some(Nrc::FrenchCanadian)
    } else if v == "german"@ {
        Some(Nrc::German)
    } else if v == "italian"@ {
        Some(Nrc::Italian)
    } else if v == "norwegian-danish"@ {
        Some(Nrc::NorwegianDanish)
    } else if v == "portuguese"@ {
        Some(Nrc::Portuguese)
    } else if v == "spanish"@ {
        Some(Nrc::Spanish)
    } else if v == "swedish"@ {
        Some(Nrc::Swedish)
    } else if v == "swiss"@ {
        Some(Nrc::Swiss)
    } else {
        None
    }
}

/// The name a keyboard language is recorded under.
pub fn nrc_name(n: Nrc) -> (r: &'static str)
    ensures
        r@ == nrc_name_spec(n),
{
    match n {
        Nrc::British => "british",
        Nrc::Dutch => "dutch",
        Nrc::Finnish => "finnish",
        Nrc::French => "french",
        Nrc::FrenchCanadian => "french-canadian",
        Nrc::German => "german",
        Nrc::Italian => "italian",
        Nrc::NorwegianDanish => "norwegian-danish",
        Nrc::Portuguese => "portuguese",
        Nrc::Spanish => "spanish",
        Nrc::Swedish => "swedish",
        Nrc::Swiss => "swiss",
    }
}

/// The keyboard language recorded under a name.
pub fn nrc_from_name(v: &[char]) -> (r: Option<Nrc>)
    ensures
        r == nrc_named(v@),
{
    if chars_equal(v, "british") {
        Some(Nrc::British)
    } else if chars_equal(v, "dutch") {
        Some(Nrc::Dutch)
    } else if chars_equal(v, "finnish") {
        Some(Nrc::Finnish)
    } else if chars_equal(v, "french") {
        Some(Nrc::French)
    } else if chars_equal(v, "french-canadian") {
        Some(Nrc::FrenchCanadian)
    } else if chars_equal(v, "german") {
        Some(Nrc::German)
    } else if chars_equal(v, "italian") {
        Some(Nrc::Italian)
    } else if chars_equal(v, "norwegian-danish") {
        Some(Nrc::NorwegianDanish)
    } else if chars_equal(v, "portuguese") {
        Some(Nrc::Portuguese)
    } else if chars_equal(v, "spanish") {
        Some(Nrc::Spanish)
    } else if chars_equal(v, "swedish") {
        Some(Nrc::Swedish)
    } else if chars_equal(v, "swiss") {
        Some(Nrc::Swiss)
    } else {
        None
    }
}

/// A switch: `1` on, `0` off.
pub open spec fn bit_text(b: bool) -> Seq<char> {
    if b { "1"@ } else { "0"@ }
}

pub open spec fn status_text(s: StatusDisplay) -> Seq<char> {
    match s {
        StatusDisplay::NoDisplay => "none"@,
        StatusDisplay::Indicator => "indicator"@,
        StatusDisplay::HostWritable => "host"@,
    }
}

pub open spec fn supplemental_text(s: Supplemental) -> Seq<char> {
    match s {
        Supplemental::DecSupplemental => "dec"@,
        Supplemental::IsoLatin1 => "latin1"@,
    }
}

/// The `config` line of a recording (after `config `): the model, page size,
/// the Set-Up switches, the keyboard language when one is set, the
/// extensions and the answerback when there is one.
pub open spec fn config_text(c: Config) -> Seq<char> {
    "model="@ + exact_name(c.model) + " rows="@ + dec(c.rows as nat) + " cols="@ + dec(c.cols as nat) + " autowrap="@
        + bit_text(c.autowrap) + " newline="@ + bit_text(c.new_line) + " status="@ + status_text(c.status_display)
        + " national="@ + bit_text(c.national_mode) + " supplemental="@ + supplemental_text(c.supplemental)
        + " udk-locked="@ + bit_text(c.udk_locked) + (match c.keyboard_language {
        Some(n) => " keyboard="@ + nrc_name_spec(n),
        None => Seq::empty(),
    }) + " utf8="@ + bit_text(c.extensions.utf8) + " xterm-sgr="@ + bit_text(c.extensions.xterm_sgr)
        + " xterm-compat="@ + bit_text(c.extensions.xterm_compat) + (if c.answerback@.len() > 0 {
        " answerback="@ + b64_encode(c.answerback@)
    } else {
        Seq::empty()
    })
}

fn push_bit(out: &mut Vec<char>, k: &str, b: bool)
    ensures
        final(out)@ == old(out)@ + k@ + bit_text(b),
{
    push_str(out, k);
    push_str(out, if b { "1" } else { "0" });
}

/// The `config` line of a recording.
pub fn config_line(c: &Config) -> (r: String)
    ensures
        r@ == config_text(*c),
{
    let mut out: Vec<char> = Vec::new();
    push_str(&mut out, "model=");
    push_str(&mut out, c.model.term_name_exact());
    push_str(&mut out, " rows=");
    push_dec(&mut out, c.rows as u64);
    push_str(&mut out, " cols=");
    push_dec(&mut out, c.cols as u64);
    push_bit(&mut out, " autowrap=", c.autowrap);
    push_bit(&mut out, " newline=", c.new_line);
    push_str(&mut out, " status=");
    push_str(
        &mut out,
        match c.status_display {
            StatusDisplay::NoDisplay => "none",
            StatusDisplay::Indicator => "indicator",
            StatusDisplay::HostWritable => "host",
        },
    );
    push_bit(&mut out, " national=", c.national_mode);
    push_str(&mut out, " supplemental=");
    push_str(
        &mut out,
        match c.supplemental {
            Supplemental::DecSupplemental => "dec",
            Supplemental::IsoLatin1 => "latin1",
        },
    );
    push_bit(&mut out, " udk-locked=", c.udk_locked);
    let ghost mid = out@;
    match c.keyboard_language {
        Some(n) => {
            push_str(&mut out, " keyboard=");
            push_str(&mut out, nrc_name(n));
        },
        None => {},
    }
    assert(out@ =~= mid + match c.keyboard_language {
        Some(n) => " keyboard="@ + nrc_name_spec(n),
        None => Seq::<char>::empty(),
    });
    push_bit(&mut out, " utf8=", c.extensions.utf8);
    push_bit(&mut out, " xterm-sgr=", c.extensions.xterm_sgr);
    push_bit(&mut out, " xterm-compat=", c.extensions.xterm_compat);
    let ghost mid2 = out@;
    if c.answerback.len() > 0 {
        push_str(&mut out, " answerback=");
        let enc = base64_encode(c.answerback.as_slice());
        push_str(&mut out, enc.as_str());
    }
    assert(out@ =~= mid2 + (if c.answerback@.len() > 0 {
        " answerback="@ + b64_encode(c.answerback@)
    } else {
        Seq::<char>::empty()
    }));
    assert(out@ =~= config_text(*c));
    string_from(&out)
}

/// The words of `t` between white space, as `str::split_whitespace` gives
/// them.
pub open spec fn ws_words(t: Seq<char>) -> Seq<Seq<char>>
    decreases t.len(),
{
    if t.len() == 0 {
        Seq::empty()
    } else {
        let r = ws_words(t.drop_last());
        if is_white(t.last()) {
            r
        } else if t.len() >= 2 && !is_white(t[t.len() - 2]) && r.len() > 0 {
            r.update(r.len() - 1, r.last().push(t.last()))
        } else {
            r.push(seq![t.last()])
        }
    }
}

proof fn lemma_ws_words_nonempty(t: Seq<char>)
    ensures
        t.len() > 0 && !is_white(t.last()) ==> ws_words(t).len() > 0,
    decreases t.len(),
{
    if t.len() > 0 {
        lemma_ws_words_nonempty(t.drop_last());
    }
}

/// The words of `t` between white space.
fn words_of(t: &[char]) -> (r: Vec<Vec<char>>)
    ensures
        crate::text::char_views(r@) == ws_words(t@),
{
    let mut out: Vec<Vec<char>> = Vec::new();
    let mut i: usize = 0;
    while i < t.len()
        invariant
            i <= t@.len(),
            crate::text::char_views(out@) == ws_words(t@.subrange(0, i as int)),
        decreases t@.len() - i,
    {
        let ghost pre = t@.subrange(0, i as int);
        let ghost cur = t@.subrange(0, i + 1);
        proof {
            assert(cur.drop_last() =~= pre);
            assert(cur.last() == t@[i as int]);
            lemma_ws_words_nonempty(pre);
            if i >= 1 {
                assert(pre.last() == t@[i - 1]);
                assert(cur[cur.len() - 2] == t@[i - 1]);
            }
        }
        let c = t[i];
        if !white(c) {
            let ghost before = out@;
            if i >= 1 && !white(t[i - 1]) && out.len() > 0 {
                let mut last = out.pop().unwrap();
                last.push(c);
                out.push(last);
                proof {
                    assert(crate::text::char_views(out@) =~= crate::text::char_views(before).update(
                        before.len() - 1,
                        crate::text::char_views(before).last().push(c),
                    ));
                }
            } else {
                let mut w: Vec<char> = Vec::new();
                w.push(c);
                out.push(w);
                proof {
                    assert(crate::text::char_views(out@) =~= crate::text::char_views(before).push(seq![c]));
                }
            }
        }
        i = i + 1;
    }
    assert(t@.subrange(0, i as int) =~= t@);
    out
}

/// The configuration a recording sets.
pub ghost struct ConfigSettings {
    pub model: Model,
    pub rows: usize,
    pub cols: usize,
    pub autowrap: bool,
    pub new_line: bool,
    pub national_mode: bool,
    pub udk_locked: bool,
    pub status_display: StatusDisplay,
    pub supplemental: Supplemental,
    pub keyboard_language: Option<Nrc>,
    pub extensions: Extensions,
    pub answerback: Seq<u8>,
}

pub open spec fn config_settings(c: Config) -> ConfigSettings {
    ConfigSettings {
        model: c.model,
        rows: c.rows,
        cols: c.cols,
        autowrap: c.autowrap,
        new_line: c.new_line,
        national_mode: c.national_mode,
        udk_locked: c.udk_locked,
        status_display: c.status_display,
        supplemental: c.supplemental,
        keyboard_language: c.keyboard_language,
        extensions: c.extensions,
        answerback: c.answerback@,
    }
}

/// The model whose name is `v` in any case.
pub open spec fn model_named(v: Seq<char>) -> Option<Model> {
    if exists|m: Model| ascii_lower(v) == exact_name(m) {
        Some(choose|m: Model| ascii_lower(v) == exact_name(m))
    } else {
        None
    }
}

/// Models have different names.
proof fn lemma_exact_name_injective(a: Model, b: Model)
    requires
        exact_name(a) == exact_name(b),
    ensures
        a == b,
{
    let x = exact_name(a);
    let y = exact_name(b);
    assert(x[2] == y[2] && x[3] == y[3] && x[4] == y[4]);
}

/// One `key=value` setting of a `config` line, `item` being the whole
/// setting; an error message for a bad number or an unknown model. Unknown
/// keys change nothing.
pub open spec fn config_key(s: ConfigSettings, k: Seq<char>, v: Seq<char>, item: Seq<char>) -> Result<
    ConfigSettings,
    Seq<char>,
> {
    if k == "model"@ {
        cfg_model(s, v, item)
    } else     if k == "rows"@ {
        cfg_rows(s, v, item)
    } else     if k == "cols"@ {
        cfg_cols(s, v, item)
    } else     if k == "autowrap"@ {
        cfg_autowrap(s, v, item)
    } else     if k == "newline"@ {
        cfg_newline(s, v, item)
    } else     if k == "national"@ {
        cfg_national(s, v, item)
    } else     if k == "udk-locked"@ {
        cfg_udk_locked(s, v, item)
    } else     if k == "status"@ {
        cfg_status(s, v, item)
    } else     if k == "supplemental"@ {
        cfg_supplemental(s, v, item)
    } else     if k == "keyboard"@ {
        cfg_keyboard(s, v, item)
    } else     if k == "utf8"@ {
        cfg_utf8(s, v, item)
    } else     if k == "xterm-sgr"@ {
        cfg_xterm_sgr(s, v, item)
    } else     if k == "xterm-compat"@ {
        cfg_xterm_compat(s, v, item)
    } else     if k == "answerback"@ {
        cfg_answerback(s, v, item)
    } else {
        Ok(s)
    }
}

/// `model=v`.
pub open spec fn cfg_model(s: ConfigSettings, v: Seq<char>, item: Seq<char>) -> Result<ConfigSettings, Seq<char>> {
    match model_named(v) { Some(m) => Ok(ConfigSettings { model: m, ..s }), None => Err("unknown model "@ + v) }
}

/// `rows=v`.
pub open spec fn cfg_rows(s: ConfigSettings, v: Seq<char>, item: Seq<char>) -> Result<ConfigSettings, Seq<char>> {
    match parse_uint(v, usize::MAX as nat) { Some(n) => Ok(ConfigSettings { rows: n as usize, ..s }), None => Err("bad number "@ + item) }
}

/// `cols=v`.
pub open spec fn cfg_cols(s: ConfigSettings, v: Seq<char>, item: Seq<char>) -> Result<ConfigSettings, Seq<char>> {
    match parse_uint(v, usize::MAX as nat) { Some(n) => Ok(ConfigSettings { cols: n as usize, ..s }), None => Err("bad number "@ + item) }
}

/// `autowrap=v`.
pub open spec fn cfg_autowrap(s: ConfigSettings, v: Seq<char>, item: Seq<char>) -> Result<ConfigSettings, Seq<char>> {
    Ok(ConfigSettings { autowrap: v == "1"@, ..s })
}

/// `newline=v`.
pub open spec fn cfg_newline(s: ConfigSettings, v: Seq<char>, item: Seq<char>) -> Result<ConfigSettings, Seq<char>> {
    Ok(ConfigSettings { new_line: v == "1"@, ..s })
}

/// `national=v`.
pub open spec fn cfg_national(s: ConfigSettings, v: Seq<char>, item: Seq<char>) -> Result<ConfigSettings, Seq<char>> {
    Ok(ConfigSettings { national_mode: v == "1"@, ..s })
}

/// `udk-locked=v`.
pub open spec fn cfg_udk_locked(s: ConfigSettings, v: Seq<char>, item: Seq<char>) -> Result<ConfigSettings, Seq<char>> {
    Ok(ConfigSettings { udk_locked: v == "1"@, ..s })
}

/// `status=v`.
pub open spec fn cfg_status(s: ConfigSettings, v: Seq<char>, item: Seq<char>) -> Result<ConfigSettings, Seq<char>> {
    Ok(ConfigSettings { status_display: if v == "none"@ { StatusDisplay::NoDisplay } else if v == "host"@ { StatusDisplay::HostWritable } else { StatusDisplay::Indicator }, ..s })
}

/// `supplemental=v`.
pub open spec fn cfg_supplemental(s: ConfigSettings, v: Seq<char>, item: Seq<char>) -> Result<ConfigSettings, Seq<char>> {
    Ok(ConfigSettings { supplemental: if v == "latin1"@ { Supplemental::IsoLatin1 } else { Supplemental::DecSupplemental }, ..s })
}

/// `keyboard=v`.
pub open spec fn cfg_keyboard(s: ConfigSettings, v: Seq<char>, item: Seq<char>) -> Result<ConfigSettings, Seq<char>> {
    Ok(ConfigSettings { keyboard_language: nrc_named(v), ..s })
}

/// `utf8=v`.
pub open spec fn cfg_utf8(s: ConfigSettings, v: Seq<char>, item: Seq<char>) -> Result<ConfigSettings, Seq<char>> {
    Ok(ConfigSettings { extensions: Extensions { utf8: v == "1"@, ..s.extensions }, ..s })
}

/// `xterm-sgr=v`.
pub open spec fn cfg_xterm_sgr(s: ConfigSettings, v: Seq<char>, item: Seq<char>) -> Result<ConfigSettings, Seq<char>> {
    Ok(ConfigSettings { extensions: Extensions { xterm_sgr: v == "1"@, ..s.extensions }, ..s })
}

/// `xterm-compat=v`.
pub open spec fn cfg_xterm_compat(s: ConfigSettings, v: Seq<char>, item: Seq<char>) -> Result<ConfigSettings, Seq<char>> {
    Ok(ConfigSettings { extensions: Extensions { xterm_compat: v == "1"@, ..s.extensions }, ..s })
}

/// `answerback=v`.
pub open spec fn cfg_answerback(s: ConfigSettings, v: Seq<char>, item: Seq<char>) -> Result<ConfigSettings, Seq<char>> {
    Ok(ConfigSettings { answerback: match b64_decode(v) { Some(d) => d, None => Seq::empty() }, ..s })
}

/// One setting of a `config` line; an error message for a setting
/// without `=`.
pub open spec fn config_item(s: ConfigSettings, item: Seq<char>) -> Result<ConfigSettings, Seq<char>> {
    let i = find_c(item, '=');
    if i < 0 {
        Err("bad setting "@ + item)
    } else {
        config_key(s, item.subrange(0, i), item.subrange(i + 1, item.len() as int), item)
    }
}

/// The settings after every item, in order; the first error ends them.
pub open spec fn config_fold(s: ConfigSettings, items: Seq<Seq<char>>) -> Result<ConfigSettings, Seq<char>>
    decreases items.len(),
{
    if items.len() == 0 {
        Ok(s)
    } else {
        match config_item(s, items[0]) {
            Ok(s2) => config_fold(s2, items.drop_first()),
            Err(e) => Err(e),
        }
    }
}

/// The settings of a configuration while a `config` line is read.
struct Settings {
    model: Model,
    rows: usize,
    cols: usize,
    autowrap: bool,
    new_line: bool,
    national_mode: bool,
    udk_locked: bool,
    status_display: StatusDisplay,
    supplemental: Supplemental,
    keyboard_language: Option<Nrc>,
    extensions: Extensions,
    answerback: Vec<u8>,
}

spec fn st_view(st: Settings) -> ConfigSettings {
    ConfigSettings {
        model: st.model,
        rows: st.rows,
        cols: st.cols,
        autowrap: st.autowrap,
        new_line: st.new_line,
        national_mode: st.national_mode,
        udk_locked: st.udk_locked,
        status_display: st.status_display,
        supplemental: st.supplemental,
        keyboard_language: st.keyboard_language,
        extensions: st.extensions,
        answerback: st.answerback@,
    }
}

fn set_model(st: &mut Settings, v: &[char], item: &[char]) -> (r: Result<(), String>)
    ensures
        match cfg_model(st_view(*old(st)), v@, item@) {
            Ok(s) => r is Ok && st_view(*final(st)) == s,
            Err(e) => r matches Err(m) && m@ == e,
        },
{
    let name = string_from(&crate::text::chars_slice(v, 0, v.len()));
    proof {
        assert(v@.subrange(0, v@.len() as int) =~= v@);
    }
    match Model::from_name(name.as_str()) {
        Some(m) => {
            proof {
                let w = choose|x: Model| ascii_lower(v@) == exact_name(x);
                lemma_exact_name_injective(w, m);
            }
            st.model = m;
            Ok(())
        },
        None => {
            let mut msg: Vec<char> = Vec::new();
            push_str(&mut msg, "unknown model ");
            push_all(&mut msg, v);
            Err(string_from(&msg))
        },
    }
}

fn set_rows(st: &mut Settings, v: &[char], item: &[char]) -> (r: Result<(), String>)
    ensures
        match cfg_rows(st_view(*old(st)), v@, item@) {
            Ok(s) => r is Ok && st_view(*final(st)) == s,
            Err(e) => r matches Err(m) && m@ == e,
        },
{
    match parse_uint_chars(v, usize::MAX as u64) {
        Some(n) => {
            st.rows = n as usize;
            Ok(())
        },
        None => {
            let mut msg: Vec<char> = Vec::new();
            push_str(&mut msg, "bad number ");
            push_all(&mut msg, item);
            Err(string_from(&msg))
        },
    }
}

fn set_cols(st: &mut Settings, v: &[char], item: &[char]) -> (r: Result<(), String>)
    ensures
        match cfg_cols(st_view(*old(st)), v@, item@) {
            Ok(s) => r is Ok && st_view(*final(st)) == s,
            Err(e) => r matches Err(m) && m@ == e,
        },
{
    match parse_uint_chars(v, usize::MAX as u64) {
        Some(n) => {
            st.cols = n as usize;
            Ok(())
        },
        None => {
            let mut msg: Vec<char> = Vec::new();
            push_str(&mut msg, "bad number ");
            push_all(&mut msg, item);
            Err(string_from(&msg))
        },
    }
}

fn set_autowrap(st: &mut Settings, v: &[char], item: &[char]) -> (r: Result<(), String>)
    ensures
        match cfg_autowrap(st_view(*old(st)), v@, item@) {
            Ok(s) => r is Ok && st_view(*final(st)) == s,
            Err(e) => r matches Err(m) && m@ == e,
        },
{
    st.autowrap = chars_equal(v, "1");
    Ok(())
}

fn set_new_line(st: &mut Settings, v: &[char], item: &[char]) -> (r: Result<(), String>)
    ensures
        match cfg_newline(st_view(*old(st)), v@, item@) {
            Ok(s) => r is Ok && st_view(*final(st)) == s,
            Err(e) => r matches Err(m) && m@ == e,
        },
{
    st.new_line = chars_equal(v, "1");
    Ok(())
}

fn set_national_mode(st: &mut Settings, v: &[char], item: &[char]) -> (r: Result<(), String>)
    ensures
        match cfg_national(st_view(*old(st)), v@, item@) {
            Ok(s) => r is Ok && st_view(*final(st)) == s,
            Err(e) => r matches Err(m) && m@ == e,
        },
{
    st.national_mode = chars_equal(v, "1");
    Ok(())
}

fn set_udk_locked(st: &mut Settings, v: &[char], item: &[char]) -> (r: Result<(), String>)
    ensures
        match cfg_udk_locked(st_view(*old(st)), v@, item@) {
            Ok(s) => r is Ok && st_view(*final(st)) == s,
            Err(e) => r matches Err(m) && m@ == e,
        },
{
    st.udk_locked = chars_equal(v, "1");
    Ok(())
}

fn set_status_display(st: &mut Settings, v: &[char], item: &[char]) -> (r: Result<(), String>)
    ensures
        match cfg_status(st_view(*old(st)), v@, item@) {
            Ok(s) => r is Ok && st_view(*final(st)) == s,
            Err(e) => r matches Err(m) && m@ == e,
        },
{
    st.status_display = if chars_equal(v, "none") {
        StatusDisplay::NoDisplay
    } else if chars_equal(v, "host") {
        StatusDisplay::HostWritable
    } else {
        StatusDisplay::Indicator
    };
    Ok(())
}

fn set_supplemental(st: &mut Settings, v: &[char], item: &[char]) -> (r: Result<(), String>)
    ensures
        match cfg_supplemental(st_view(*old(st)), v@, item@) {
            Ok(s) => r is Ok && st_view(*final(st)) == s,
            Err(e) => r matches Err(m) && m@ == e,
        },
{
    st.supplemental = if chars_equal(v, "latin1") {
        Supplemental::IsoLatin1
    } else {
        Supplemental::DecSupplemental
    };
    Ok(())
}

fn set_keyboard_language(st: &mut Settings, v: &[char], item: &[char]) -> (r: Result<(), String>)
    ensures
        match cfg_keyboard(st_view(*old(st)), v@, item@) {
            Ok(s) => r is Ok && st_view(*final(st)) == s,
            Err(e) => r matches Err(m) && m@ == e,
        },
{
    st.keyboard_language = nrc_from_name(v);
    Ok(())
}

fn set_utf8(st: &mut Settings, v: &[char], item: &[char]) -> (r: Result<(), String>)
    ensures
        match cfg_utf8(st_view(*old(st)), v@, item@) {
            Ok(s) => r is Ok && st_view(*final(st)) == s,
            Err(e) => r matches Err(m) && m@ == e,
        },
{
    st.extensions.utf8 = chars_equal(v, "1");
    Ok(())
}

fn set_xterm_sgr(st: &mut Settings, v: &[char], item: &[char]) -> (r: Result<(), String>)
    ensures
        match cfg_xterm_sgr(st_view(*old(st)), v@, item@) {
            Ok(s) => r is Ok && st_view(*final(st)) == s,
            Err(e) => r matches Err(m) && m@ == e,
        },
{
    st.extensions.xterm_sgr = chars_equal(v, "1");
    Ok(())
}

fn set_xterm_compat(st: &mut Settings, v: &[char], item: &[char]) -> (r: Result<(), String>)
    ensures
        match cfg_xterm_compat(st_view(*old(st)), v@, item@) {
            Ok(s) => r is Ok && st_view(*final(st)) == s,
            Err(e) => r matches Err(m) && m@ == e,
        },
{
    st.extensions.xterm_compat = chars_equal(v, "1");
    Ok(())
}

fn set_answerback(st: &mut Settings, v: &[char], item: &[char]) -> (r: Result<(), String>)
    ensures
        match cfg_answerback(st_view(*old(st)), v@, item@) {
            Ok(s) => r is Ok && st_view(*final(st)) == s,
            Err(e) => r matches Err(m) && m@ == e,
        },
{
    let text = string_from(&crate::text::chars_slice(v, 0, v.len()));
    proof {
        assert(v@.subrange(0, v@.len() as int) =~= v@);
    }
    st.answerback = match base64_decode(text.as_str()) {
        Some(d) => d,
        None => Vec::new(),
    };
    Ok(())
}

fn apply_key(st: &mut Settings, k: &[char], v: &[char], item: &[char]) -> (r: Result<(), String>)
    ensures
        match config_key(st_view(*old(st)), k@, v@, item@) {
            Ok(s) => r is Ok && st_view(*final(st)) == s,
            Err(e) => r matches Err(m) && m@ == e,
        },
{
    if chars_equal(k, "model") {
        set_model(st, v, item)
    } else     if chars_equal(k, "rows") {
        set_rows(st, v, item)
    } else     if chars_equal(k, "cols") {
        set_cols(st, v, item)
    } else     if chars_equal(k, "autowrap") {
        set_autowrap(st, v, item)
    } else     if chars_equal(k, "newline") {
        set_new_line(st, v, item)
    } else     if chars_equal(k, "national") {
        set_national_mode(st, v, item)
    } else     if chars_equal(k, "udk-locked") {
        set_udk_locked(st, v, item)
    } else     if chars_equal(k, "status") {
        set_status_display(st, v, item)
    } else     if chars_equal(k, "supplemental") {
        set_supplemental(st, v, item)
    } else     if chars_equal(k, "keyboard") {
        set_keyboard_language(st, v, item)
    } else     if chars_equal(k, "utf8") {
        set_utf8(st, v, item)
    } else     if chars_equal(k, "xterm-sgr") {
        set_xterm_sgr(st, v, item)
    } else     if chars_equal(k, "xterm-compat") {
        set_xterm_compat(st, v, item)
    } else     if chars_equal(k, "answerback") {
        set_answerback(st, v, item)
    } else {
        Ok(())
    }
}

/// Applies one setting.
fn apply_item(st: &mut Settings, item: &[char]) -> (r: Result<(), String>)
    ensures
        match config_item(st_view(*old(st)), item@) {
            Ok(s) => r is Ok && st_view(*final(st)) == s,
            Err(e) => r matches Err(m) && m@ == e,
        },
{
    proof {
        lemma_find_c(item@, '=');
    }
    assert(item@.subrange(0, item@.len() as int) =~= item@);
    let i = match find_char_from(item, '=', 0) {
        Some(i) => i,
        None => {
            let mut m: Vec<char> = Vec::new();
            push_str(&mut m, "bad setting ");
            push_all(&mut m, item);
            return Err(string_from(&m));
        },
    };
    assert(i < item.len());
    let k = chars_slice(item, 0, i);
    let v = chars_slice(item, i + 1, item.len());
    apply_key(st, k.as_slice(), v.as_slice(), item)
}

/// Applies a `config` line: `key=value` settings separated by white space.
/// The first bad setting ends it with an error message; the settings before
/// it stay.
pub fn apply_config(c: &mut Config, text: &str) -> (r: Result<(), String>)
    ensures
        final(c).scrollback_lines == old(c).scrollback_lines,
        final(c).setup == old(c).setup,
        match config_fold(config_settings(*old(c)), ws_words(text@)) {
            Ok(s) => r is Ok && config_settings(*final(c)) == s,
            Err(e) => r matches Err(m) && m@ == e,
        },
{
    let mut st = Settings {
        model: c.model,
        rows: c.rows,
        cols: c.cols,
        autowrap: c.autowrap,
        new_line: c.new_line,
        national_mode: c.national_mode,
        udk_locked: c.udk_locked,
        status_display: c.status_display,
        supplemental: c.supplemental,
        keyboard_language: c.keyboard_language,
        extensions: c.extensions,
        answerback: crate::keyprog::copy_bytes(&c.answerback),
    };
    let r = apply_settings(&mut st, text);
    c.model = st.model;
    c.rows = st.rows;
    c.cols = st.cols;
    c.autowrap = st.autowrap;
    c.new_line = st.new_line;
    c.national_mode = st.national_mode;
    c.udk_locked = st.udk_locked;
    c.status_display = st.status_display;
    c.supplemental = st.supplemental;
    c.keyboard_language = st.keyboard_language;
    c.extensions = st.extensions;
    c.answerback = st.answerback;
    r
}

fn apply_settings(st: &mut Settings, text: &str) -> (r: Result<(), String>)
    ensures
        match config_fold(st_view(*old(st)), ws_words(text@)) {
            Ok(s) => r is Ok && st_view(*final(st)) == s,
            Err(e) => r matches Err(m) && m@ == e,
        },
{
    let t = str_chars(text);
    let items = words_of(t.as_slice());
    let ghost its = crate::text::char_views(items@);
    let mut i: usize = 0;
    assert(its.subrange(0, its.len() as int) =~= its);
    while i < items.len()
        invariant
            i <= items@.len(),
            its == crate::text::char_views(items@),
            its == ws_words(text@),
            config_fold(st_view(*old(st)), its) == config_fold(st_view(*st), its.subrange(i as int, its.len() as int)),
        decreases items@.len() - i,
    {
        let ghost rest = its.subrange(i as int, its.len() as int);
        proof {
            assert(rest[0] == items@[i as int]@);
            assert(rest.drop_first() =~= its.subrange(i + 1, its.len() as int));
        }
        match apply_item(st, items[i].as_slice()) {
            Ok(()) => {},
            Err(m) => {
                return Err(m);
            },
        }
        i = i + 1;
    }
    assert(its.subrange(i as int, its.len() as int) =~= Seq::<Seq<char>>::empty());
    Ok(())
}

/// Why a recording cannot be read.
#[derive(Debug, Clone, PartialEq, Eq)]
pub enum ReadError {
    /// The first line is not `vtrec 1`; it holds the line read, if any.
    NotRecording(Option<String>),
    /// A bad line: its number (the header is line 1), what is wrong with it,
    /// and the line.
    BadLine { number: usize, what: String, line: String },
}

/// The first three space-separated fields of a line, the third holding the
/// rest of the line (`str::splitn(3, ' ')`); missing fields are empty.
pub open spec fn line_fields(l: Seq<char>) -> (Seq<char>, Seq<char>, Seq<char>) {
    let i = find_c(l, ' ');
    if i < 0 {
        (l, Seq::empty(), Seq::empty())
    } else {
        let rest = l.subrange(i + 1, l.len() as int);
        let j = find_c(rest, ' ');
        if j < 0 {
            (l.subrange(0, i), rest, Seq::empty())
        } else {
            (l.subrange(0, i), rest.subrange(0, j), rest.subrange(j + 1, rest.len() as int))
        }
    }
}

/// `l` without its leading `config` words, as `trim_start_matches` leaves it.
pub open spec fn strip_config(l: Seq<char>) -> Seq<char>
    decreases l.len(),
{
    if l.len() >= 6 && l.subrange(0, 6) == "config"@ {
        strip_config(l.subrange(6, l.len() as int))
    } else {
        l
    }
}

/// What reading a recording has gathered: the configuration and the records.
pub type Gathered = (ConfigSettings, Seq<RecordView>);

/// One line of a recording after the header; an error message for a bad
/// `config` line, time or data. Unknown record types are skipped.
pub open spec fn record_step(g: Gathered, l: Seq<char>) -> Result<Gathered, Seq<char>> {
    let (tag, a0, a1) = line_fields(l);
    if tag == "config"@ {
        match config_fold(g.0, ws_words(trim_c(strip_config(l)))) {
            Ok(s) => Ok((s, g.1)),
            Err(e) => Err(e),
        }
    } else if tag == "H"@ || tag == "R"@ || tag == "K"@ {
        match parse_uint(a0, u64::MAX as nat) {
            None => Err("bad time"@),
            Some(ms) => match b64_decode(a1) {
                None => Err("bad data"@),
                Some(d) => Ok(
                    (
                        g.0,
                        g.1.push(
                            if tag == "H"@ {
                                RecordView::Host(ms as u64, d)
                            } else if tag == "R"@ {
                                RecordView::Reply(ms as u64, d)
                            } else {
                                RecordView::Keys(ms as u64, d)
                            },
                        ),
                    ),
                ),
            },
        }
    } else if tag == "M"@ {
        match parse_uint(a0, u64::MAX as nat) {
            None => Err("bad time"@),
            Some(ms) => Ok((g.0, g.1.push(RecordView::Mark(ms as u64, sanitized(a1))))),
        }
    } else {
        Ok(g)
    }
}

/// The lines read in order, the first being line `number`; the first bad
/// line ends reading with its number and what is wrong.
pub open spec fn records_fold(g: Gathered, lines: Seq<Seq<char>>, number: nat) -> Result<Gathered, (nat, Seq<char>)>
    decreases lines.len(),
{
    if lines.len() == 0 {
        Ok(g)
    } else {
        match record_step(g, lines[0]) {
            Ok(g2) => records_fold(g2, lines.drop_first(), number + 1),
            Err(e) => Err((number, e)),
        }
    }
}

/// The factory configuration's settings.
pub open spec fn factory_settings() -> ConfigSettings {
    ConfigSettings {
        model: Model::Vt420,
        rows: 24,
        cols: 80,
        autowrap: false,
        new_line: false,
        national_mode: false,
        udk_locked: false,
        status_display: StatusDisplay::Indicator,
        supplemental: Supplemental::DecSupplemental,
        keyboard_language: None,
        extensions: Extensions { utf8: false, xterm_sgr: false, xterm_compat: false },
        answerback: Seq::empty(),
    }
}

/// Splits a line into its first three space-separated fields.
fn fields_of(l: &[char]) -> (r: (Vec<char>, Vec<char>, Vec<char>))
    ensures
        line_fields(l@) == (r.0@, r.1@, r.2@),
{
    proof {
        lemma_find_c(l@, ' ');
    }
    assert(l@.subrange(0, l@.len() as int) =~= l@);
    match find_char_from(l, ' ', 0) {
        None => (chars_slice(l, 0, l.len()), Vec::new(), Vec::new()),
        Some(i) => {
            assert(i < l.len());
            let head = chars_slice(l, 0, i);
            let rest = chars_slice(l, i + 1, l.len());
            proof {
                lemma_find_c(rest@, ' ');
            }
            assert(rest@.subrange(0, rest@.len() as int) =~= rest@);
            match find_char_from(rest.as_slice(), ' ', 0) {
                None => (head, rest, Vec::new()),
                Some(j) => {
                    assert(j < rest.len());
                    let a0 = chars_slice(rest.as_slice(), 0, j);
                    let a1 = chars_slice(rest.as_slice(), j + 1, rest.len());
                    (head, a0, a1)
                },
            }
        },
    }
}

/// Drops the leading `config` words of a line.
fn strip_config_of(l: &[char]) -> (r: Vec<char>)
    ensures
        r@ == strip_config(l@),
{
    let mut start: usize = 0;
    assert(l@.subrange(0, l@.len() as int) =~= l@);
    loop
        invariant
            start <= l@.len(),
            strip_config(l@) == strip_config(l@.subrange(start as int, l@.len() as int)),
        decreases l@.len() - start,
    {
        let ghost t = l@.subrange(start as int, l@.len() as int);
        if l.len() - start >= 6 {
            let head = chars_slice(l, start, start + 6);
            assert(head@ =~= t.subrange(0, 6));
            if chars_equal(head.as_slice(), "config") {
                assert(t.subrange(6, t.len() as int) =~= l@.subrange(start + 6, l@.len() as int));
                start = start + 6;
                continue;
            }
        }
        return chars_slice(l, start, l.len());
    }
}

/// Reads one line after the header: a `config` line changes the settings,
/// a record line gives its record.
fn read_record(st: &mut Settings, l: &[char]) -> (r: Result<Option<Record>, String>)
    ensures
        forall|recs: Seq<RecordView>|
            match #[trigger] record_step((st_view(*old(st)), recs), l@) {
                Ok(g) => r is Ok && st_view(*final(st)) == g.0 && g.1 == match r->Ok_0 {
                    Some(x) => recs.push(record_view(x)),
                    None => recs,
                },
                Err(e) => r matches Err(m) && m@ == e,
            },
{
    let (tag, a0, a1) = fields_of(l);
    if chars_equal(tag.as_slice(), "config") {
        let stripped = strip_config_of(l);
        let text = trim_chars(stripped.as_slice());
        let line = string_from(&text);
        return match apply_settings(st, line.as_str()) {
            Ok(()) => Ok(None),
            Err(m) => Err(m),
        };
    }
    let is_h = chars_equal(tag.as_slice(), "H");
    let is_r = chars_equal(tag.as_slice(), "R");
    let is_k = chars_equal(tag.as_slice(), "K");
    if is_h || is_r || is_k {
        let ms = match parse_uint_chars(a0.as_slice(), u64::MAX) {
            Some(ms) => ms,
            None => {
                return Err(String::from_str("bad time"));
            },
        };
        let text = string_from(&a1);
        let data = match base64_decode(text.as_str()) {
            Some(d) => d,
            None => {
                return Err(String::from_str("bad data"));
            },
        };
        if is_h {
            Ok(Some(Record::Host { ms, data }))
        } else if is_r {
            Ok(Some(Record::Reply { ms, data }))
        } else {
            Ok(Some(Record::Keys { ms, data }))
        }
    } else if chars_equal(tag.as_slice(), "M") {
        let ms = match parse_uint_chars(a0.as_slice(), u64::MAX) {
            Some(ms) => ms,
            None => {
                return Err(String::from_str("bad time"));
            },
        };
        let name = string_from(&a1);
        Ok(Some(Record::Mark { ms, name: sanitize(name.as_str()) }))
    } else {
        Ok(None)
    }
}

/// Reads a recording from its lines: the `vtrec 1` header, then the
/// configuration and the records.
pub fn parse_recording(lines: &Vec<String>) -> (r: Result<(Config, Vec<Record>), ReadError>)
    ensures
        lines@.len() == 0 ==> r == Err::<(Config, Vec<Record>), ReadError>(ReadError::NotRecording(None)),
        lines@.len() > 0 && trim_c(lines@[0]@) != "vtrec 1"@ ==> (r matches Err(ReadError::NotRecording(Some(h)))
            && h@ == lines@[0]@),
        lines@.len() > 0 && trim_c(lines@[0]@) == "vtrec 1"@ ==> match records_fold(
            (factory_settings(), Seq::empty()),
            lines@.subrange(1, lines@.len() as int).map_values(|l: String| l@),
            2,
        ) {
            Ok(g) => r matches Ok((c, v)) && config_settings(c) == g.0 && c.scrollback_lines == 10_000
                && c.setup is None && v@.map_values(|x: Record| record_view(x)) == g.1,
            Err((n, what)) => r matches Err(ReadError::BadLine { number, what: w, line }) && number == n && w@
                == what && 2 <= n <= lines@.len() && line@ == lines@[n - 1]@,
        },
{
    if lines.len() == 0 {
        return Err(ReadError::NotRecording(None));
    }
    let header = str_chars(lines[0].as_str());
    let trimmed = trim_chars(header.as_slice());
    if !chars_equal(trimmed.as_slice(), "vtrec 1") {
        let h = string_from(&header);
        return Err(ReadError::NotRecording(Some(h)));
    }
    let base = Config::default();
    let mut st = Settings {
        model: base.model,
        rows: base.rows,
        cols: base.cols,
        autowrap: base.autowrap,
        new_line: base.new_line,
        national_mode: base.national_mode,
        udk_locked: base.udk_locked,
        status_display: base.status_display,
        supplemental: base.supplemental,
        keyboard_language: base.keyboard_language,
        extensions: base.extensions,
        answerback: Vec::new(),
    };
    assert(st_view(st) == factory_settings());
    let mut records: Vec<Record> = Vec::new();
    let ghost ls = lines@.subrange(1, lines@.len() as int).map_values(|l: String| l@);
    let mut i: usize = 1;
    assert(ls.subrange(0, ls.len() as int) =~= ls);
    assert(records@.map_values(|x: Record| record_view(x)) =~= Seq::<RecordView>::empty());
    while i < lines.len()
        invariant
            1 <= i <= lines@.len(),
            trim_c(lines@[0]@) == "vtrec 1"@,
            ls == lines@.subrange(1, lines@.len() as int).map_values(|l: String| l@),
            ls.len() == lines@.len() - 1,
            records_fold((factory_settings(), Seq::empty()), ls, 2) == records_fold(
                (st_view(st), records@.map_values(|x: Record| record_view(x))),
                ls.subrange(i - 1, ls.len() as int),
                (i + 1) as nat,
            ),
        decreases lines@.len() - i,
    {
        let ghost rest = ls.subrange(i - 1, ls.len() as int);
        let l = str_chars(lines[i].as_str());
        proof {
            assert(rest[0] == lines@[i as int]@);
            assert(rest.drop_first() =~= ls.subrange(i as int, ls.len() as int));
        }
        let ghost recs = records@.map_values(|x: Record| record_view(x));
        match read_record(&mut st, l.as_slice()) {
            Ok(Some(rec)) => {
                let ghost rv = record_view(rec);
                records.push(rec);
                assert(records@.map_values(|x: Record| record_view(x)) =~= recs.push(rv));
            },
            Ok(None) => {},
            Err(what) => {
                let line = string_from(&l);
                return Err(ReadError::BadLine { number: i + 1, what, line });
            },
        }
        i = i + 1;
    }
    assert(ls.subrange(i - 1, ls.len() as int) =~= Seq::<Seq<char>>::empty());
    let c = Config {
        model: st.model,
        rows: st.rows,
        cols: st.cols,
        autowrap: st.autowrap,
        new_line: st.new_line,
        answerback: st.answerback,
        scrollback_lines: 10_000,
        status_display: st.status_display,
        keyboard_language: st.keyboard_language,
        national_mode: st.national_mode,
        supplemental: st.supplemental,
        udk_locked: st.udk_locked,
        extensions: st.extensions,
        setup: None,
    };
    Ok((c, records))
}

/// A data line: the tag, the milliseconds since the start and the data in
/// base64; nothing for empty data.
pub open spec fn data_line_text(tag: char, ms: u64, data: Seq<u8>) -> Seq<char> {
    if data.len() == 0 {
        Seq::empty()
    } else {
        seq![tag, ' '] + dec(ms as nat) + seq![' '] + b64_encode(data) + seq!['\n']
    }
}

/// The first `x` of `s` is at `k` when `s[k]` is `x` and none comes before.
proof fn lemma_find_c_at(s: Seq<char>, x: char, k: int)
    requires
        0 <= k < s.len(),
        s[k] == x,
        forall|j: int| 0 <= j < k ==> s[j] != x,
    ensures
        find_c(s, x) == k,
{
    lemma_find_c(s, x);
}

/// A data line as a recorder writes it reads back, without its line end,
/// as the record it holds.
#[verifier::spinoff_prover]
#[verifier::rlimit(30)]
pub proof fn lemma_data_line_round_trip(g: Gathered, tag: char, ms: u64, data: Seq<u8>)
    requires
        tag == 'H' || tag == 'R' || tag == 'K',
        data.len() > 0,
    ensures
        data_line_text(tag, ms, data).last() == '\n',
        record_step(g, data_line_text(tag, ms, data).drop_last()) == Ok::<Gathered, Seq<char>>(
            (
                g.0,
                g.1.push(
                    if tag == 'H' {
                        RecordView::Host(ms, data)
                    } else if tag == 'R' {
                        RecordView::Reply(ms, data)
                    } else {
                        RecordView::Keys(ms, data)
                    },
                ),
            ),
        ),
{
    let d = dec(ms as nat);
    let b = b64_encode(data);
    let l = seq![tag, ' '] + d + seq![' '] + b;
    assert(data_line_text(tag, ms, data).drop_last() =~= l);
    assert(line_fields(l) == (seq![tag], d, b)) by {
        lemma_dec_digits(ms as nat);
        lemma_find_c_at(l, ' ', 1);
        let rest = l.subrange(2, l.len() as int);
        assert(rest =~= d + seq![' '] + b);
        assert forall|j: int| 0 <= j < d.len() implies rest[j] != ' ' by {
            assert(rest[j] == d[j]);
            assert(is_digit(d[j]));
        }
        lemma_find_c_at(rest, ' ', d.len() as int);
        assert(l.subrange(0, 1) =~= seq![tag]);
        assert(rest.subrange(0, d.len() as int) =~= d);
        assert(rest.subrange(d.len() as int + 1, rest.len() as int) =~= b);
    }
    assert(seq![tag] != "config"@ && ((seq![tag] == "H"@) == (tag == 'H')) && ((seq![tag] == "R"@) == (tag == 'R'))
        && ((seq![tag] == "K"@) == (tag == 'K'))) by {
        reveal_strlit("H");
        reveal_strlit("R");
        reveal_strlit("K");
        reveal_strlit("config");
        assert("H"@ =~= seq!['H']);
        assert("R"@ =~= seq!['R']);
        assert("K"@ =~= seq!['K']);
        assert("config"@.len() == 6);
        assert(seq![tag].len() == 1);
        if seq![tag] == "H"@ {
            assert(seq![tag][0] == "H"@[0]);
        }
        if seq![tag] == "R"@ {
            assert(seq![tag][0] == "R"@[0]);
        }
        if seq![tag] == "K"@ {
            assert(seq![tag][0] == "K"@[0]);
        }
        if tag == 'H' {
            assert(seq![tag] =~= "H"@);
        }
        if tag == 'R' {
            assert(seq![tag] =~= "R"@);
        }
        if tag == 'K' {
            assert(seq![tag] =~= "K"@);
        }
    }
    lemma_parse_dec(ms as nat, u64::MAX as nat);
    lemma_base64_round_trip(data);
}

/// The line a recorder writes for data: `H`, `R` or `K`, the time and the
/// data; an empty line is not written.
pub fn data_line(tag: char, ms: u64, data: &[u8]) -> (r: String)
    ensures
        r@ == data_line_text(tag, ms, data@),
{
    let mut out: Vec<char> = Vec::new();
    if data.len() > 0 {
        out.push(tag);
        out.push(' ');
        push_dec(&mut out, ms);
        out.push(' ');
        let enc = base64_encode(data);
        push_str(&mut out, enc.as_str());
        out.push('\n');
    }
    assert(out@ =~= data_line_text(tag, ms, data@));
    string_from(&out)
}

/// The name of checkpoint `number`: the given name made usable as a file
/// name, or `checkpoint-NN`.
pub open spec fn mark_name_text(number: u32, name: Option<Seq<char>>) -> Seq<char> {
    match name {
        Some(n) => sanitized(n),
        None => "checkpoint-"@ + (if number < 10 { seq!['0'] } else { Seq::empty() }) + dec(number as nat),
    }
}

/// The name of checkpoint `number`.
pub fn mark_name(number: u32, name: Option<&str>) -> (r: String)
    ensures
        r@ == mark_name_text(number, match name {
            Some(n) => Some(n@),
            None => None,
        }),
{
    match name {
        Some(n) => sanitize(n),
        None => {
            let mut out: Vec<char> = Vec::new();
            push_str(&mut out, "checkpoint-");
            if number < 10 {
                out.push('0');
            }
            push_dec(&mut out, number as u64);
            string_from(&out)
        },
    }
}

/// The line of a checkpoint: `M`, the time and the name.
pub open spec fn mark_line_text(ms: u64, name: Seq<char>) -> Seq<char> {
    seq!['M', ' '] + dec(ms as nat) + seq![' '] + name + seq!['\n']
}

/// The line of a checkpoint.
pub fn mark_line(ms: u64, name: &str) -> (r: String)
    ensures
        r@ == mark_line_text(ms, name@),
{
    let mut out: Vec<char> = Vec::new();
    out.push('M');
    out.push(' ');
    push_dec(&mut out, ms);
    out.push(' ');
    push_str(&mut out, name);
    out.push('\n');
    assert(out@ =~= mark_line_text(ms, name@));
    string_from(&out)
}


/// A word of a `config` line: no white space in it.
pub open spec fn plain(w: Seq<char>) -> bool {
    forall|i: int| 0 <= i < w.len() ==> !is_white(#[trigger] w[i])
}

/// A word after white space (or at the start) adds one word.
proof fn lemma_ws_words_append(t: Seq<char>, w: Seq<char>)
    requires
        w.len() > 0,
        plain(w),
        t.len() == 0 || is_white(t.last()),
    ensures
        ws_words(t + w) == ws_words(t).push(w),
    decreases w.len(),
{
    let u = t + w;
    if w.len() == 1 {
        assert(u.drop_last() =~= t);
        assert(u.last() == w[0]);
        if u.len() >= 2 {
            assert(u[u.len() - 2] == t.last());
        }
        assert(seq![u.last()] =~= w);
    } else {
        let w1 = w.drop_last();
        assert(plain(w1)) by {
            assert forall|i: int| 0 <= i < w1.len() implies !is_white(#[trigger] w1[i]) by {
                assert(w1[i] == w[i]);
            }
        }
        lemma_ws_words_append(t, w1);
        assert(u.drop_last() =~= t + w1);
        assert(u.last() == w.last());
        assert(u[u.len() - 2] == w[w.len() - 2]);
        assert(w1.push(w.last()) =~= w);
        let r = ws_words(t).push(w1);
        assert(r.update(r.len() - 1, r.last().push(u.last())) =~= ws_words(t).push(w));
    }
}

/// Settings after one more item.
proof fn lemma_fold_push(s: ConfigSettings, items: Seq<Seq<char>>, w: Seq<char>)
    ensures
        config_fold(s, items.push(w)) == match config_fold(s, items) {
            Ok(s2) => config_item(s2, w),
            Err(e) => Err(e),
        },
    decreases items.len(),
{
    if items.len() == 0 {
        assert(items.push(w).drop_first() =~= Seq::<Seq<char>>::empty());
        assert(items.push(w)[0] == w);
        assert(config_fold(s, items) == Ok::<ConfigSettings, Seq<char>>(s));
        match config_item(s, w) {
            Ok(s2) => {
                assert(config_fold(s2, Seq::<Seq<char>>::empty()) == Ok::<ConfigSettings, Seq<char>>(s2));
            },
            Err(_) => {},
        }
    } else {
        assert(items.push(w).drop_first() =~= items.drop_first().push(w));
        assert(items.push(w)[0] == items[0]);
        match config_item(s, items[0]) {
            Ok(s2) => lemma_fold_push(s2, items.drop_first(), w),
            Err(_) => {},
        }
    }
}

/// A `key=value` item is read as that key and value.
proof fn lemma_item_key(s: ConfigSettings, k: Seq<char>, v: Seq<char>)
    requires
        forall|j: int| 0 <= j < k.len() ==> k[j] != '=',
    ensures
        config_item(s, k + seq!['='] + v) == config_key(s, k, v, k + seq!['='] + v),
{
    let w = k + seq!['='] + v;
    assert forall|j: int| 0 <= j < k.len() implies w[j] != '=' by {
        assert(w[j] == k[j]);
    }
    lemma_find_c_at(w, '=', k.len() as int);
    assert(w.subrange(0, k.len() as int) =~= k);
    assert(w.subrange(k.len() + 1int, w.len() as int) =~= v);
}

/// A `key=value` item after the settings so far.
proof fn lemma_config_step(s0: ConfigSettings, t: Seq<char>, k: Seq<char>, v: Seq<char>)
    requires
        plain(k),
        plain(v),
        forall|j: int| 0 <= j < k.len() ==> k[j] != '=',
    ensures
        config_fold(s0, ws_words(t + seq![' '] + k + seq!['='] + v)) == match config_fold(s0, ws_words(t)) {
            Ok(s2) => config_key(s2, k, v, k + seq!['='] + v),
            Err(e) => Err(e),
        },
        t.len() == 0 ==> config_fold(s0, ws_words(k + seq!['='] + v)) == config_key(
            s0,
            k,
            v,
            k + seq!['='] + v,
        ),
{
    let w = k + seq!['='] + v;
    assert(plain(w)) by {
        assert forall|i: int| 0 <= i < w.len() implies !is_white(#[trigger] w[i]) by {
            if i < k.len() {
                assert(w[i] == k[i]);
            } else if i > k.len() {
                assert(w[i] == v[i - k.len() - 1]);
            }
        }
    }
    let ts = t + seq![' '];
    assert(t + seq![' '] + k + seq!['='] + v =~= ts + w);
    assert(ts.drop_last() =~= t);
    assert(ws_words(ts) == ws_words(t));
    lemma_ws_words_append(ts, w);
    lemma_fold_push(s0, ws_words(t), w);
    match config_fold(s0, ws_words(t)) {
        Ok(s2) => lemma_item_key(s2, k, v),
        Err(_) => {},
    }
    if t.len() == 0 {
        assert(Seq::<char>::empty() + w =~= w);
        lemma_ws_words_append(Seq::<char>::empty(), w);
        assert(ws_words(Seq::<char>::empty()) =~= Seq::<Seq<char>>::empty());
        lemma_fold_push(s0, Seq::<Seq<char>>::empty(), w);
        lemma_item_key(s0, k, v);
    }
}

/// A model's name, in the lower case it is written in, names that model.
proof fn lemma_model_named(m: Model)
    ensures
        model_named(exact_name(m)) == Some(m),
        plain(exact_name(m)),
        forall|j: int| 0 <= j < exact_name(m).len() ==> exact_name(m)[j] != '=',
{
    let e = exact_name(m);
    assert(ascii_lower(e) =~= e);
    assert(ascii_lower(e) == exact_name(m));
    let k = choose|k: Model| ascii_lower(e) == exact_name(k);
    lemma_exact_name_injective(k, m);
}


/// The words a `config` line writes for its values have no white space and
/// name what they were written from.
proof fn lemma_config_values(c: Config)
    ensures
        plain(bit_text(true)) && plain(bit_text(false)),
        plain(status_text(c.status_display)),
        plain(supplemental_text(c.supplemental)),
        bit_text(true) == "1"@,
        bit_text(false) != "1"@,
        (status_text(c.status_display) == "none"@) == (c.status_display == StatusDisplay::NoDisplay),
        (status_text(c.status_display) == "host"@) == (c.status_display == StatusDisplay::HostWritable),
        (supplemental_text(c.supplemental) == "latin1"@) == (c.supplemental == Supplemental::IsoLatin1),
        c.keyboard_language matches Some(n) ==> plain(nrc_name_spec(n)) && nrc_named(nrc_name_spec(n)) == Some(n),
{
    reveal_strlit("0");
    reveal_strlit("1");
    reveal_strlit("none");
    reveal_strlit("indicator");
    reveal_strlit("host");
    reveal_strlit("dec");
    reveal_strlit("latin1");
    reveal_strlit("british");
    reveal_strlit("dutch");
    reveal_strlit("finnish");
    reveal_strlit("french");
    reveal_strlit("french-canadian");
    reveal_strlit("german");
    reveal_strlit("italian");
    reveal_strlit("norwegian-danish");
    reveal_strlit("portuguese");
    reveal_strlit("spanish");
    reveal_strlit("swedish");
    reveal_strlit("swiss");
    assert("0"@ != "1"@) by {
        assert("0"@[0] != "1"@[0]);
    }
    match c.status_display {
        StatusDisplay::NoDisplay => {
            assert("none"@ != "host"@) by { assert("none"@[0] != "host"@[0]); }
        },
        StatusDisplay::Indicator => {
            assert("indicator"@.len() != "none"@.len());
            assert("indicator"@.len() != "host"@.len());
        },
        StatusDisplay::HostWritable => {
            assert("none"@ != "host"@) by { assert("none"@[0] != "host"@[0]); }
        },
    }
    match c.supplemental {
        Supplemental::DecSupplemental => { assert("dec"@.len() != "latin1"@.len()); },
        Supplemental::IsoLatin1 => {},
    }
    match c.keyboard_language {
        Some(n) => {
            lemma_nrc_named(n);
        },
        None => {},
    }
}


/// A keyboard language's recorded name names it and has no white space.
#[verifier::spinoff_prover]
proof fn lemma_nrc_named(n: Nrc)
    ensures
        nrc_named(nrc_name_spec(n)) == Some(n),
        plain(nrc_name_spec(n)),
{
    reveal_strlit("british");
    reveal_strlit("dutch");
    reveal_strlit("finnish");
    reveal_strlit("french");
    reveal_strlit("french-canadian");
    reveal_strlit("german");
    reveal_strlit("italian");
    reveal_strlit("norwegian-danish");
    reveal_strlit("portuguese");
    reveal_strlit("spanish");
    reveal_strlit("swedish");
    reveal_strlit("swiss");
    assert("british"@.len() == 7);
    assert("dutch"@.len() == 5);
    assert("finnish"@.len() == 7);
    assert("french"@.len() == 6);
    assert("french-canadian"@.len() == 15);
    assert("german"@.len() == 6);
    assert("italian"@.len() == 7);
    assert("norwegian-danish"@.len() == 16);
    assert("portuguese"@.len() == 10);
    assert("spanish"@.len() == 7);
    assert("swedish"@.len() == 7);
    assert("swiss"@.len() == 5);
    assert("british"@[0] != "finnish"@[0]);
    assert("british"@[0] != "italian"@[0]);
    assert("british"@[0] != "spanish"@[0]);
    assert("british"@[0] != "swedish"@[0]);
    assert("dutch"@[0] != "swiss"@[0]);
    assert("finnish"@[0] != "italian"@[0]);
    assert("finnish"@[0] != "spanish"@[0]);
    assert("finnish"@[0] != "swedish"@[0]);
    assert("french"@[0] != "german"@[0]);
    assert("italian"@[0] != "spanish"@[0]);
    assert("italian"@[0] != "swedish"@[0]);
    assert("spanish"@[1] != "swedish"@[1]);
    match n {
        Nrc::British => {
            assert(nrc_name_spec(n) == "british"@);
            assert(nrc_named("british"@) == Some(Nrc::British));
        },
        Nrc::Dutch => {
            assert(nrc_name_spec(n) == "dutch"@);
            assert(nrc_named("dutch"@) == Some(Nrc::Dutch));
        },
        Nrc::Finnish => {
            assert(nrc_name_spec(n) == "finnish"@);
            assert(nrc_named("finnish"@) == Some(Nrc::Finnish));
        },
        Nrc::French => {
            assert(nrc_name_spec(n) == "french"@);
            assert(nrc_named("french"@) == Some(Nrc::French));
        },
        Nrc::FrenchCanadian => {
            assert(nrc_name_spec(n) == "french-canadian"@);
            assert(nrc_named("french-canadian"@) == Some(Nrc::FrenchCanadian));
        },
        Nrc::German => {
            assert(nrc_name_spec(n) == "german"@);
            assert(nrc_named("german"@) == Some(Nrc::German));
        },
        Nrc::Italian => {
            assert(nrc_name_spec(n) == "italian"@);
            assert(nrc_named("italian"@) == Some(Nrc::Italian));
        },
        Nrc::NorwegianDanish => {
            assert(nrc_name_spec(n) == "norwegian-danish"@);
            assert(nrc_named("norwegian-danish"@) == Some(Nrc::NorwegianDanish));
        },
        Nrc::Portuguese => {
            assert(nrc_name_spec(n) == "portuguese"@);
            assert(nrc_named("portuguese"@) == Some(Nrc::Portuguese));
        },
        Nrc::Spanish => {
            assert(nrc_name_spec(n) == "spanish"@);
            assert(nrc_named("spanish"@) == Some(Nrc::Spanish));
        },
        Nrc::Swedish => {
            assert(nrc_name_spec(n) == "swedish"@);
            assert(nrc_named("swedish"@) == Some(Nrc::Swedish));
        },
        Nrc::Swiss => {
            assert(nrc_name_spec(n) == "swiss"@);
            assert(nrc_named("swiss"@) == Some(Nrc::Swiss));
        },
    }
}

/// The key words of a `config` line differ from one another and hold
/// neither white space nor `=`.
#[verifier::spinoff_prover]
proof fn lemma_config_keys()
    ensures
        plain("model"@),
        forall|j: int| 0 <= j < "model"@.len() ==> "model"@[j] != '=',
        plain("rows"@),
        forall|j: int| 0 <= j < "rows"@.len() ==> "rows"@[j] != '=',
        plain("cols"@),
        forall|j: int| 0 <= j < "cols"@.len() ==> "cols"@[j] != '=',
        plain("autowrap"@),
        forall|j: int| 0 <= j < "autowrap"@.len() ==> "autowrap"@[j] != '=',
        plain("newline"@),
        forall|j: int| 0 <= j < "newline"@.len() ==> "newline"@[j] != '=',
        plain("status"@),
        forall|j: int| 0 <= j < "status"@.len() ==> "status"@[j] != '=',
        plain("national"@),
        forall|j: int| 0 <= j < "national"@.len() ==> "national"@[j] != '=',
        plain("supplemental"@),
        forall|j: int| 0 <= j < "supplemental"@.len() ==> "supplemental"@[j] != '=',
        plain("udk-locked"@),
        forall|j: int| 0 <= j < "udk-locked"@.len() ==> "udk-locked"@[j] != '=',
        plain("keyboard"@),
        forall|j: int| 0 <= j < "keyboard"@.len() ==> "keyboard"@[j] != '=',
        plain("utf8"@),
        forall|j: int| 0 <= j < "utf8"@.len() ==> "utf8"@[j] != '=',
        plain("xterm-sgr"@),
        forall|j: int| 0 <= j < "xterm-sgr"@.len() ==> "xterm-sgr"@[j] != '=',
        plain("xterm-compat"@),
        forall|j: int| 0 <= j < "xterm-compat"@.len() ==> "xterm-compat"@[j] != '=',
        plain("answerback"@),
        forall|j: int| 0 <= j < "answerback"@.len() ==> "answerback"@[j] != '=',
        "model"@ != "rows"@,
        "model"@ != "cols"@,
        "model"@ != "autowrap"@,
        "model"@ != "newline"@,
        "model"@ != "status"@,
        "model"@ != "national"@,
        "model"@ != "supplemental"@,
        "model"@ != "udk-locked"@,
        "model"@ != "keyboard"@,
        "model"@ != "utf8"@,
        "model"@ != "xterm-sgr"@,
        "model"@ != "xterm-compat"@,
        "model"@ != "answerback"@,
        "rows"@ != "cols"@,
        "rows"@ != "autowrap"@,
        "rows"@ != "newline"@,
        "rows"@ != "status"@,
        "rows"@ != "national"@,
        "rows"@ != "supplemental"@,
        "rows"@ != "udk-locked"@,
        "rows"@ != "keyboard"@,
        "rows"@ != "utf8"@,
        "rows"@ != "xterm-sgr"@,
        "rows"@ != "xterm-compat"@,
        "rows"@ != "answerback"@,
        "cols"@ != "autowrap"@,
        "cols"@ != "newline"@,
        "cols"@ != "status"@,
        "cols"@ != "national"@,
        "cols"@ != "supplemental"@,
        "cols"@ != "udk-locked"@,
        "cols"@ != "keyboard"@,
        "cols"@ != "utf8"@,
        "cols"@ != "xterm-sgr"@,
        "cols"@ != "xterm-compat"@,
        "cols"@ != "answerback"@,
        "autowrap"@ != "newline"@,
        "autowrap"@ != "status"@,
        "autowrap"@ != "national"@,
        "autowrap"@ != "supplemental"@,
        "autowrap"@ != "udk-locked"@,
        "autowrap"@ != "keyboard"@,
        "autowrap"@ != "utf8"@,
        "autowrap"@ != "xterm-sgr"@,
        "autowrap"@ != "xterm-compat"@,
        "autowrap"@ != "answerback"@,
        "newline"@ != "status"@,
        "newline"@ != "national"@,
        "newline"@ != "supplemental"@,
        "newline"@ != "udk-locked"@,
        "newline"@ != "keyboard"@,
        "newline"@ != "utf8"@,
        "newline"@ != "xterm-sgr"@,
        "newline"@ != "xterm-compat"@,
        "newline"@ != "answerback"@,
        "status"@ != "national"@,
        "status"@ != "supplemental"@,
        "status"@ != "udk-locked"@,
        "status"@ != "keyboard"@,
        "status"@ != "utf8"@,
        "status"@ != "xterm-sgr"@,
        "status"@ != "xterm-compat"@,
        "status"@ != "answerback"@,
        "national"@ != "supplemental"@,
        "national"@ != "udk-locked"@,
        "national"@ != "keyboard"@,
        "national"@ != "utf8"@,
        "national"@ != "xterm-sgr"@,
        "national"@ != "xterm-compat"@,
        "national"@ != "answerback"@,
        "supplemental"@ != "udk-locked"@,
        "supplemental"@ != "keyboard"@,
        "supplemental"@ != "utf8"@,
        "supplemental"@ != "xterm-sgr"@,
        "supplemental"@ != "xterm-compat"@,
        "supplemental"@ != "answerback"@,
        "udk-locked"@ != "keyboard"@,
        "udk-locked"@ != "utf8"@,
        "udk-locked"@ != "xterm-sgr"@,
        "udk-locked"@ != "xterm-compat"@,
        "udk-locked"@ != "answerback"@,
        "keyboard"@ != "utf8"@,
        "keyboard"@ != "xterm-sgr"@,
        "keyboard"@ != "xterm-compat"@,
        "keyboard"@ != "answerback"@,
        "utf8"@ != "xterm-sgr"@,
        "utf8"@ != "xterm-compat"@,
        "utf8"@ != "answerback"@,
        "xterm-sgr"@ != "xterm-compat"@,
        "xterm-sgr"@ != "answerback"@,
        "xterm-compat"@ != "answerback"@,
{
    reveal_strlit("model");
    reveal_strlit("rows");
    reveal_strlit("cols");
    reveal_strlit("autowrap");
    reveal_strlit("newline");
    reveal_strlit("status");
    reveal_strlit("national");
    reveal_strlit("supplemental");
    reveal_strlit("udk-locked");
    reveal_strlit("keyboard");
    reveal_strlit("utf8");
    reveal_strlit("xterm-sgr");
    reveal_strlit("xterm-compat");
    reveal_strlit("answerback");
    assert("model"@.len() == 5);
    assert("rows"@.len() == 4);
    assert("cols"@.len() == 4);
    assert("autowrap"@.len() == 8);
    assert("newline"@.len() == 7);
    assert("status"@.len() == 6);
    assert("national"@.len() == 8);
    assert("supplemental"@.len() == 12);
    assert("udk-locked"@.len() == 10);
    assert("keyboard"@.len() == 8);
    assert("utf8"@.len() == 4);
    assert("xterm-sgr"@.len() == 9);
    assert("xterm-compat"@.len() == 12);
    assert("answerback"@.len() == 10);
    assert("rows"@[0] != "cols"@[0]);
    assert("rows"@[0] != "utf8"@[0]);
    assert("cols"@[0] != "utf8"@[0]);
    assert("autowrap"@[0] != "national"@[0]);
    assert("autowrap"@[0] != "keyboard"@[0]);
    assert("national"@[0] != "keyboard"@[0]);
    assert("supplemental"@[0] != "xterm-compat"@[0]);
    assert("udk-locked"@[0] != "answerback"@[0]);
}

/// The first settings of a `config` line: model, page size and switches.
#[verifier::opaque]
pub open spec fn config_head(c: Config) -> Seq<char> {
    "model"@ + seq!['='] + exact_name(c.model) + seq![' '] + "rows"@ + seq!['='] + dec(c.rows as nat) + seq![' '] + "cols"@ + seq!['='] + dec(c.cols as nat) + seq![' '] + "autowrap"@ + seq!['='] + bit_text(c.autowrap) + seq![' '] + "newline"@ + seq!['='] + bit_text(c.new_line)
}

/// The Set-Up settings of a `config` line up to the keyboard language.
#[verifier::opaque]
pub open spec fn config_middle(c: Config) -> Seq<char> {
    config_head(c) + seq![' '] + "status"@ + seq!['='] + status_text(c.status_display) + seq![' '] + "national"@ + seq!['='] + bit_text(c.national_mode) + seq![' '] + "supplemental"@ + seq!['='] + supplemental_text(c.supplemental) + seq![' '] + "udk-locked"@ + seq!['='] + bit_text(c.udk_locked)
}

/// The settings after the head of a `config` line.
pub open spec fn head_settings(s: ConfigSettings, c: Config) -> ConfigSettings {
    ConfigSettings { model: c.model, rows: c.rows, cols: c.cols, autowrap: c.autowrap, new_line: c.new_line, ..s }
}

/// The settings after the middle of a `config` line.
pub open spec fn middle_settings(s: ConfigSettings, c: Config) -> ConfigSettings {
    ConfigSettings {
        status_display: c.status_display,
        national_mode: c.national_mode,
        supplemental: c.supplemental,
        udk_locked: c.udk_locked,
        ..head_settings(s, c)
    }
}

#[verifier::spinoff_prover]
#[verifier::rlimit(50)]
proof fn lemma_config_head(s: ConfigSettings, c: Config)
    ensures
        config_fold(s, ws_words(config_head(c))) == Ok::<ConfigSettings, Seq<char>>(head_settings(s, c)),
{
    reveal(config_head);
    lemma_config_keys();
    lemma_config_values(c);
    lemma_model_named(c.model);
    lemma_dec_digits(c.rows as nat);
    lemma_dec_digits(c.cols as nat);
    lemma_parse_dec(c.rows as nat, usize::MAX as nat);
    lemma_parse_dec(c.cols as nat, usize::MAX as nat);
    let eq = seq!['='];
    let sp = seq![' '];
    let rows = dec(c.rows as nat);
    let cols = dec(c.cols as nat);
    assert(plain(rows) && plain(cols));
    let t1 = "model"@ + eq + exact_name(c.model);
    lemma_config_step(s, Seq::<char>::empty(), "model"@, exact_name(c.model));
    let s1 = ConfigSettings { model: c.model, ..s };
    assert(config_fold(s, ws_words(t1)) == Ok::<ConfigSettings, Seq<char>>(s1));
    let t2 = t1 + sp + "rows"@ + eq + rows;
    lemma_config_step(s, t1, "rows"@, rows);
    let s2 = ConfigSettings { rows: c.rows, ..s1 };
    assert(config_fold(s, ws_words(t2)) == Ok::<ConfigSettings, Seq<char>>(s2));
    let t3 = t2 + sp + "cols"@ + eq + cols;
    lemma_config_step(s, t2, "cols"@, cols);
    let s3 = ConfigSettings { cols: c.cols, ..s2 };
    assert(config_fold(s, ws_words(t3)) == Ok::<ConfigSettings, Seq<char>>(s3));
    let t4 = t3 + sp + "autowrap"@ + eq + bit_text(c.autowrap);
    lemma_config_step(s, t3, "autowrap"@, bit_text(c.autowrap));
    let s4 = ConfigSettings { autowrap: c.autowrap, ..s3 };
    assert(config_fold(s, ws_words(t4)) == Ok::<ConfigSettings, Seq<char>>(s4));
    let t5 = t4 + sp + "newline"@ + eq + bit_text(c.new_line);
    lemma_config_step(s, t4, "newline"@, bit_text(c.new_line));
    assert(config_fold(s, ws_words(t5)) == Ok::<ConfigSettings, Seq<char>>(head_settings(s, c)));
    assert(config_head(c) =~= t5);
}

#[verifier::spinoff_prover]
#[verifier::rlimit(50)]
proof fn lemma_config_middle(s: ConfigSettings, c: Config)
    ensures
        config_fold(s, ws_words(config_middle(c))) == Ok::<ConfigSettings, Seq<char>>(middle_settings(s, c)),
{
    reveal(config_middle);
    lemma_config_head(s, c);
    lemma_config_keys();
    lemma_config_values(c);
    let eq = seq!['='];
    let sp = seq![' '];
    let t5 = config_head(c);
    let s5 = head_settings(s, c);
    let t6 = t5 + sp + "status"@ + eq + status_text(c.status_display);
    lemma_config_step(s, t5, "status"@, status_text(c.status_display));
    let s6 = ConfigSettings { status_display: c.status_display, ..s5 };
    assert(config_fold(s, ws_words(t6)) == Ok::<ConfigSettings, Seq<char>>(s6));
    let t7 = t6 + sp + "national"@ + eq + bit_text(c.national_mode);
    lemma_config_step(s, t6, "national"@, bit_text(c.national_mode));
    let s7 = ConfigSettings { national_mode: c.national_mode, ..s6 };
    assert(config_fold(s, ws_words(t7)) == Ok::<ConfigSettings, Seq<char>>(s7));
    let t8 = t7 + sp + "supplemental"@ + eq + supplemental_text(c.supplemental);
    lemma_config_step(s, t7, "supplemental"@, supplemental_text(c.supplemental));
    let s8 = ConfigSettings { supplemental: c.supplemental, ..s7 };
    assert(config_fold(s, ws_words(t8)) == Ok::<ConfigSettings, Seq<char>>(s8));
    let t9 = t8 + sp + "udk-locked"@ + eq + bit_text(c.udk_locked);
    lemma_config_step(s, t8, "udk-locked"@, bit_text(c.udk_locked));
    assert(config_fold(s, ws_words(t9)) == Ok::<ConfigSettings, Seq<char>>(middle_settings(s, c)));
    assert(config_middle(c) =~= t9);
}


/// The literals of a `config` line: a space, the key and `=`.
proof fn lemma_config_literals()
    ensures
        "model="@ == "model"@ + seq!['='],
        " rows="@ == seq![' '] + "rows"@ + seq!['='],
        " cols="@ == seq![' '] + "cols"@ + seq!['='],
        " autowrap="@ == seq![' '] + "autowrap"@ + seq!['='],
        " newline="@ == seq![' '] + "newline"@ + seq!['='],
        " status="@ == seq![' '] + "status"@ + seq!['='],
        " national="@ == seq![' '] + "national"@ + seq!['='],
        " supplemental="@ == seq![' '] + "supplemental"@ + seq!['='],
        " udk-locked="@ == seq![' '] + "udk-locked"@ + seq!['='],
        " keyboard="@ == seq![' '] + "keyboard"@ + seq!['='],
        " utf8="@ == seq![' '] + "utf8"@ + seq!['='],
        " xterm-sgr="@ == seq![' '] + "xterm-sgr"@ + seq!['='],
        " xterm-compat="@ == seq![' '] + "xterm-compat"@ + seq!['='],
        " answerback="@ == seq![' '] + "answerback"@ + seq!['='],
{
    reveal_strlit("model");
    reveal_strlit("model=");
    assert("model="@ =~= "model"@ + seq!['=']);
    reveal_strlit("rows");
    reveal_strlit(" rows=");
    assert(" rows="@ =~= seq![' '] + "rows"@ + seq!['=']);
    reveal_strlit("cols");
    reveal_strlit(" cols=");
    assert(" cols="@ =~= seq![' '] + "cols"@ + seq!['=']);
    reveal_strlit("autowrap");
    reveal_strlit(" autowrap=");
    assert(" autowrap="@ =~= seq![' '] + "autowrap"@ + seq!['=']);
    reveal_strlit("newline");
    reveal_strlit(" newline=");
    assert(" newline="@ =~= seq![' '] + "newline"@ + seq!['=']);
    reveal_strlit("status");
    reveal_strlit(" status=");
    assert(" status="@ =~= seq![' '] + "status"@ + seq!['=']);
    reveal_strlit("national");
    reveal_strlit(" national=");
    assert(" national="@ =~= seq![' '] + "national"@ + seq!['=']);
    reveal_strlit("supplemental");
    reveal_strlit(" supplemental=");
    assert(" supplemental="@ =~= seq![' '] + "supplemental"@ + seq!['=']);
    reveal_strlit("udk-locked");
    reveal_strlit(" udk-locked=");
    assert(" udk-locked="@ =~= seq![' '] + "udk-locked"@ + seq!['=']);
    reveal_strlit("keyboard");
    reveal_strlit(" keyboard=");
    assert(" keyboard="@ =~= seq![' '] + "keyboard"@ + seq!['=']);
    reveal_strlit("utf8");
    reveal_strlit(" utf8=");
    assert(" utf8="@ =~= seq![' '] + "utf8"@ + seq!['=']);
    reveal_strlit("xterm-sgr");
    reveal_strlit(" xterm-sgr=");
    assert(" xterm-sgr="@ =~= seq![' '] + "xterm-sgr"@ + seq!['=']);
    reveal_strlit("xterm-compat");
    reveal_strlit(" xterm-compat=");
    assert(" xterm-compat="@ =~= seq![' '] + "xterm-compat"@ + seq!['=']);
    reveal_strlit("answerback");
    reveal_strlit(" answerback=");
    assert(" answerback="@ =~= seq![' '] + "answerback"@ + seq!['=']);
}

/// The Set-Up settings of a `config` line as it writes them.
pub open spec fn written_middle(c: Config) -> Seq<char> {
    "model="@ + exact_name(c.model) + " rows="@ + dec(c.rows as nat) + " cols="@ + dec(c.cols as nat) + " autowrap="@
        + bit_text(c.autowrap) + " newline="@ + bit_text(c.new_line) + " status="@ + status_text(c.status_display)
        + " national="@ + bit_text(c.national_mode) + " supplemental="@ + supplemental_text(c.supplemental)
        + " udk-locked="@ + bit_text(c.udk_locked)
}

/// One more item after `x`, however the concatenation is grouped.
proof fn lemma_append_item(x: Seq<char>, k: Seq<char>, v: Seq<char>)
    ensures
        x + (seq![' '] + k + seq!['=']) + v == x + seq![' '] + k + seq!['='] + v,
{
    assert(x + (seq![' '] + k + seq!['=']) + v =~= x + seq![' '] + k + seq!['='] + v);
}

#[verifier::spinoff_prover]
proof fn lemma_written_middle(c: Config)
    ensures
        config_middle(c) == written_middle(c),
{
    reveal(config_middle);
    reveal(config_head);
    lemma_config_literals();
    let h1 = "model"@ + seq!['='] + exact_name(c.model);
    lemma_append_item(h1, "rows"@, dec(c.rows as nat));
    let h2 = h1 + seq![' '] + "rows"@ + seq!['='] + dec(c.rows as nat);
    lemma_append_item(h2, "cols"@, dec(c.cols as nat));
    let h3 = h2 + seq![' '] + "cols"@ + seq!['='] + dec(c.cols as nat);
    lemma_append_item(h3, "autowrap"@, bit_text(c.autowrap));
    let h4 = h3 + seq![' '] + "autowrap"@ + seq!['='] + bit_text(c.autowrap);
    lemma_append_item(h4, "newline"@, bit_text(c.new_line));
    let h5 = h4 + seq![' '] + "newline"@ + seq!['='] + bit_text(c.new_line);
    assert(h5 == config_head(c));
    lemma_append_item(h5, "status"@, status_text(c.status_display));
    let h6 = h5 + seq![' '] + "status"@ + seq!['='] + status_text(c.status_display);
    lemma_append_item(h6, "national"@, bit_text(c.national_mode));
    let h7 = h6 + seq![' '] + "national"@ + seq!['='] + bit_text(c.national_mode);
    lemma_append_item(h7, "supplemental"@, supplemental_text(c.supplemental));
    let h8 = h7 + seq![' '] + "supplemental"@ + seq!['='] + supplemental_text(c.supplemental);
    lemma_append_item(h8, "udk-locked"@, bit_text(c.udk_locked));
    let h9 = h8 + seq![' '] + "udk-locked"@ + seq!['='] + bit_text(c.udk_locked);
    assert(config_middle(c) == h9);
}

/// A `config` line up to its extensions.
#[verifier::opaque]
pub open spec fn config_upto_extensions(c: Config) -> Seq<char> {
    config_middle(c) + (match c.keyboard_language {
        Some(n) => seq![' '] + "keyboard"@ + seq!['='] + nrc_name_spec(n),
        None => Seq::empty(),
    }) + seq![' '] + "utf8"@ + seq!['='] + bit_text(c.extensions.utf8) + seq![' '] + "xterm-sgr"@ + seq!['=']
        + bit_text(c.extensions.xterm_sgr) + seq![' '] + "xterm-compat"@ + seq!['='] + bit_text(
        c.extensions.xterm_compat,
    )
}

#[verifier::spinoff_prover]
proof fn lemma_config_text_parts(c: Config)
    ensures
        config_text(c) == config_upto_extensions(c) + (if c.answerback@.len() > 0 {
            seq![' '] + "answerback"@ + seq!['='] + b64_encode(c.answerback@)
        } else {
            Seq::empty()
        }),
{
    reveal(config_upto_extensions);
    lemma_written_middle(c);
    lemma_config_literals();
    let m = config_middle(c) + (match c.keyboard_language {
        Some(n) => seq![' '] + "keyboard"@ + seq!['='] + nrc_name_spec(n),
        None => Seq::<char>::empty(),
    });
    lemma_append_item(m, "utf8"@, bit_text(c.extensions.utf8));
    let u1 = m + seq![' '] + "utf8"@ + seq!['='] + bit_text(c.extensions.utf8);
    lemma_append_item(u1, "xterm-sgr"@, bit_text(c.extensions.xterm_sgr));
    let u2 = u1 + seq![' '] + "xterm-sgr"@ + seq!['='] + bit_text(c.extensions.xterm_sgr);
    lemma_append_item(u2, "xterm-compat"@, bit_text(c.extensions.xterm_compat));
    let u3 = u2 + seq![' '] + "xterm-compat"@ + seq!['='] + bit_text(c.extensions.xterm_compat);
    assert(u3 == config_upto_extensions(c));
}

#[verifier::spinoff_prover]
#[verifier::rlimit(50)]
proof fn lemma_config_extensions(s: ConfigSettings, c: Config)
    requires
        s.keyboard_language is None,
    ensures
        config_fold(s, ws_words(config_upto_extensions(c))) == Ok::<ConfigSettings, Seq<char>>(
            ConfigSettings { keyboard_language: c.keyboard_language, extensions: c.extensions, ..middle_settings(s, c) },
        ),
{
    reveal(config_upto_extensions);
    lemma_config_middle(s, c);
    lemma_config_keys();
    lemma_config_values(c);
    let eq = seq!['='];
    let sp = seq![' '];
    let t9 = config_middle(c);
    let s9 = middle_settings(s, c);
    let t10 = match c.keyboard_language {
        Some(n) => t9 + (sp + "keyboard"@ + eq + nrc_name_spec(n)),
        None => t9 + Seq::<char>::empty(),
    };
    let s10 = ConfigSettings { keyboard_language: c.keyboard_language, ..s9 };
    match c.keyboard_language {
        Some(n) => {
            lemma_nrc_named(n);
            lemma_config_step(s, t9, "keyboard"@, nrc_name_spec(n));
            assert(t10 =~= t9 + sp + "keyboard"@ + eq + nrc_name_spec(n));
        },
        None => {
            assert(t10 =~= t9);
        },
    }
    assert(config_fold(s, ws_words(t10)) == Ok::<ConfigSettings, Seq<char>>(s10));
    let t11 = t10 + sp + "utf8"@ + eq + bit_text(c.extensions.utf8);
    lemma_config_step(s, t10, "utf8"@, bit_text(c.extensions.utf8));
    let s11 = ConfigSettings { extensions: Extensions { utf8: c.extensions.utf8, ..s10.extensions }, ..s10 };
    assert(config_fold(s, ws_words(t11)) == Ok::<ConfigSettings, Seq<char>>(s11));
    let t12 = t11 + sp + "xterm-sgr"@ + eq + bit_text(c.extensions.xterm_sgr);
    lemma_config_step(s, t11, "xterm-sgr"@, bit_text(c.extensions.xterm_sgr));
    let s12 = ConfigSettings { extensions: Extensions { xterm_sgr: c.extensions.xterm_sgr, ..s11.extensions }, ..s11 };
    assert(config_fold(s, ws_words(t12)) == Ok::<ConfigSettings, Seq<char>>(s12));
    let t13 = t12 + sp + "xterm-compat"@ + eq + bit_text(c.extensions.xterm_compat);
    lemma_config_step(s, t12, "xterm-compat"@, bit_text(c.extensions.xterm_compat));
    assert(config_upto_extensions(c) =~= t13);
}

/// A `config` line as a recorder writes it reads back as the
/// configuration it was written from, when reading starts from settings
/// with no keyboard language and no answerback, as reading a recording
/// does: the line writes those two only when they are set.
#[verifier::spinoff_prover]
pub proof fn lemma_config_line_round_trip(s: ConfigSettings, c: Config)
    requires
        s.keyboard_language is None,
        s.answerback.len() == 0,
    ensures
        config_fold(s, ws_words(config_text(c))) == Ok::<ConfigSettings, Seq<char>>(config_settings(c)),
{
    lemma_config_extensions(s, c);
    lemma_config_text_parts(c);
    let t13 = config_upto_extensions(c);
    if c.answerback@.len() > 0 {
        let e = b64_encode(c.answerback@);
        lemma_config_keys();
        lemma_b64_body_digits(c.answerback@);
        lemma_base64_round_trip(c.answerback@);
        assert(plain(e)) by {
            assert forall|i: int| 0 <= i < e.len() implies !is_white(#[trigger] e[i]) by {
                if i < b64_body(c.answerback@).len() {
                    assert(e[i] == b64_body(c.answerback@)[i]);
                }
            }
        }
        lemma_config_step(s, t13, "answerback"@, e);
        assert(config_text(c) =~= t13 + seq![' '] + "answerback"@ + seq!['='] + e);
    } else {
        assert(config_text(c) =~= t13);
        assert(c.answerback@ =~= s.answerback);
    }
}

} // verus!
