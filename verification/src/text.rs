//! Text building blocks shared by the reports, Set-Up files and recordings:
//! decimal and hexadecimal numbers, and conversion between `String` and the
//! character vectors the library builds text in.

use vstd::prelude::*;

verus! {

/// The decimal digit character for `d` (0–9).
pub open spec fn digit_char(d: nat) -> char {
    (48 + d) as char
}

/// The shortest decimal form of `n`.
pub open spec fn dec(n: nat) -> Seq<char>
    decreases n,
{
    if n < 10 {
        seq![digit_char(n)]
    } else {
        dec(n / 10).push(digit_char(n % 10))
    }
}

pub open spec fn is_digit(c: char) -> bool {
    '0' <= c <= '9'
}

pub open spec fn all_digits(s: Seq<char>) -> bool {
    forall|i: int| 0 <= i < s.len() ==> is_digit(#[trigger] s[i])
}

/// The number written by a string of decimal digits.
pub open spec fn digits_value(s: Seq<char>) -> nat
    decreases s.len(),
{
    if s.len() == 0 {
        0
    } else {
        digits_value(s.drop_last()) * 10 + (s.last() as nat - 48) as nat
    }
}

/// What Rust's `FromStr` for an unsigned integer type with largest value
/// `max` reads from `s`: an optional `+`, then one or more decimal digits
/// whose value is at most `max`.
pub open spec fn parse_uint(s: Seq<char>, max: nat) -> Option<nat> {
    let d = if s.len() > 0 && s[0] == '+' { s.drop_first() } else { s };
    if d.len() > 0 && all_digits(d) && digits_value(d) <= max {
        Some(digits_value(d))
    } else {
        None
    }
}

/// The decimal form of a number is its digits.
pub proof fn lemma_dec_digits(n: nat)
    ensures
        all_digits(dec(n)),
        dec(n).len() > 0,
        dec(n)[0] != '+',
        digits_value(dec(n)) == n,
    decreases n,
{
    let c = digit_char(n % 10);
    assert(c as nat == 48 + n % 10);
    if n < 10 {
        assert(dec(n).drop_last() =~= Seq::<char>::empty());
        assert(dec(n).last() == c);
        assert(digits_value(dec(n)) == digits_value(dec(n).drop_last()) * 10 + (dec(n).last() as nat - 48) as nat);
    } else {
        lemma_dec_digits(n / 10);
        let s = dec(n);
        assert(s.drop_last() =~= dec(n / 10));
        assert(n == (n / 10) * 10 + n % 10);
        assert(s.last() == c);
        assert(digits_value(s) == digits_value(s.drop_last()) * 10 + (s.last() as nat - 48) as nat);
        assert(all_digits(s)) by {
            assert forall|i: int| 0 <= i < s.len() implies is_digit(#[trigger] s[i]) by {
                if i < s.len() - 1 {
                    assert(s[i] == dec(n / 10)[i]);
                }
            }
        }
    }
}

/// Decimal numbers read back what was written.
pub proof fn lemma_parse_dec(n: nat, max: nat)
    requires
        n <= max,
    ensures
        parse_uint(dec(n), max) == Some(n),
{
    lemma_dec_digits(n);
}

/// Appends the decimal form of `n`.
pub fn push_dec(out: &mut Vec<char>, n: u64)
    ensures
        final(out)@ == old(out)@ + dec(n as nat),
    decreases n,
{
    if n >= 10 {
        push_dec(out, n / 10);
    }
    let d = (n % 10) as u32;
    let c = char_from_digit(d);
    out.push(c);
    proof {
        assert(old(out)@ + dec(n as nat) =~= (if n >= 10 { old(out)@ + dec((n / 10) as nat) } else { old(out)@ }).push(c));
    }
}

/// The character for a decimal digit.
pub fn char_from_digit(d: u32) -> (c: char)
    requires
        d < 10,
    ensures
        c == digit_char(d as nat),
{
    match d {
        0 => '0',
        1 => '1',
        2 => '2',
        3 => '3',
        4 => '4',
        5 => '5',
        6 => '6',
        7 => '7',
        8 => '8',
        _ => '9',
    }
}

/// The decimal form of `n` as ASCII bytes.
pub open spec fn dec_bytes(n: nat) -> Seq<u8> {
    dec(n).map_values(|c: char| c as u8)
}

/// Appends the decimal form of `n` as ASCII bytes.
pub fn push_dec_bytes(out: &mut Vec<u8>, n: u64)
    ensures
        final(out)@ == old(out)@ + dec_bytes(n as nat),
    decreases n,
{
    if n >= 10 {
        push_dec_bytes(out, n / 10);
    }
    let d = (n % 10) as u8;
    out.push(48 + d);
    proof {
        let c = digit_char((n % 10) as nat);
        assert(c as u8 == (48 + d) as u8);
        if n >= 10 {
            assert(dec(n as nat) == dec((n / 10) as nat).push(c));
            assert(dec_bytes(n as nat) =~= dec_bytes((n / 10) as nat).push(c as u8));
        } else {
            assert(dec_bytes(n as nat) =~= seq![c as u8]);
        }
        assert(old(out)@ + dec_bytes(n as nat) =~= (if n >= 10 { old(out)@ + dec_bytes((n / 10) as nat) } else { old(out)@ }).push((48 + d) as u8));
    }
}

/// Appends every character of `s`.
pub fn push_all(out: &mut Vec<char>, s: &[char])
    ensures
        final(out)@ == old(out)@ + s@,
{
    let mut i: usize = 0;
    while i < s.len()
        invariant
            i <= s.len(),
            out@ == old(out)@ + s@.subrange(0, i as int),
        decreases s.len() - i,
    {
        out.push(s[i]);
        i = i + 1;
        proof {
            assert(s@.subrange(0, i as int) =~= s@.subrange(0, i - 1).push(s@[i - 1]));
        }
    }
    proof {
        assert(s@.subrange(0, s.len() as int) =~= s@);
    }
}

/// Appends the characters of `s`.
pub fn push_str(out: &mut Vec<char>, s: &str)
    ensures
        final(out)@ == old(out)@ + s@,
{
    let v = str_chars(s);
    push_all(out, v.as_slice());
}

/// The characters of `s`.
pub(crate) fn str_chars(s: &str) -> (v: Vec<char>)
    ensures
        v@ == s@,
{
    let n = s.unicode_len();
    let mut v: Vec<char> = Vec::new();
    let mut i: usize = 0;
    while i < n
        invariant
            i <= n,
            n == s@.len(),
            v@ == s@.take(i as int),
        decreases n - i,
    {
        let c = s.get_char(i);
        v.push(c);
        i = i + 1;
        assert(v@ =~= s@.take(i as int));
    }
    assert(v@ =~= s@);
    v
}

/// A `String` holding `v`'s characters, collected by `FromIterator<char>`.
#[verifier::external_body]
pub(crate) fn string_from(v: &Vec<char>) -> (s: String)
    ensures
        s@ == v@,
{
    v.iter().collect()
}

/// The character for a byte (Latin-1).
pub open spec fn byte_char(b: u8) -> char {
    b as char
}

/// The upper-case hexadecimal digit for `d` (0–15).
pub open spec fn hex_digit_upper(d: nat) -> char {
    if d < 10 { digit_char(d) } else { (55 + d) as char }
}

/// The lower-case hexadecimal digit for `d` (0–15).
pub open spec fn hex_digit_lower(d: nat) -> char {
    if d < 10 { digit_char(d) } else { (87 + d) as char }
}

/// Two hexadecimal digits per byte.
pub open spec fn hex_text(data: Seq<u8>, upper: bool) -> Seq<char>
    decreases data.len(),
{
    if data.len() == 0 {
        seq![]
    } else {
        let b = data.last();
        let hi = (b / 16) as nat;
        let lo = (b % 16) as nat;
        hex_text(data.drop_last(), upper) + if upper {
            seq![hex_digit_upper(hi), hex_digit_upper(lo)]
        } else {
            seq![hex_digit_lower(hi), hex_digit_lower(lo)]
        }
    }
}

fn hex_char(d: u8, upper: bool) -> (c: char)
    requires
        d < 16,
    ensures
        c == (if upper { hex_digit_upper(d as nat) } else { hex_digit_lower(d as nat) }),
{
    if d < 10 {
        char_from_digit(d as u32)
    } else if upper {
        match d {
            10 => 'A',
            11 => 'B',
            12 => 'C',
            13 => 'D',
            14 => 'E',
            _ => 'F',
        }
    } else {
        match d {
            10 => 'a',
            11 => 'b',
            12 => 'c',
            13 => 'd',
            14 => 'e',
            _ => 'f',
        }
    }
}

/// Appends two hexadecimal digits per byte of `data`.
pub fn push_hex(out: &mut Vec<char>, data: &[u8], upper: bool)
    ensures
        final(out)@ == old(out)@ + hex_text(data@, upper),
{
    let mut i: usize = 0;
    while i < data.len()
        invariant
            i <= data.len(),
            out@ == old(out)@ + hex_text(data@.subrange(0, i as int), upper),
        decreases data.len() - i,
    {
        let b = data[i];
        let hi = hex_char(b / 16, upper);
        let lo = hex_char(b % 16, upper);
        out.push(hi);
        out.push(lo);
        proof {
            let next = data@.subrange(0, i + 1);
            assert(next.drop_last() =~= data@.subrange(0, i as int));
            assert(next.last() == b);
        }
        i = i + 1;
        proof {
            assert(out@ =~= old(out)@ + hex_text(data@.subrange(0, i as int), upper));
        }
    }
    proof {
        assert(data@.subrange(0, data.len() as int) =~= data@);
    }
}

/// The value of a hexadecimal digit byte, in either case.
pub open spec fn hex_value(b: u8) -> Option<nat> {
    if 48 <= b <= 57 {
        Some((b - 48) as nat)
    } else if 65 <= b <= 70 {
        Some((b - 55) as nat)
    } else if 97 <= b <= 102 {
        Some((b - 87) as nat)
    } else {
        None
    }
}

/// What `u8::from_str_radix(.., 16)` reads from a two-byte field: two hex
/// digits, or `+` and one.
pub open spec fn hex_pair(a: u8, b: u8) -> Option<u8> {
    if a == 43 {
        match hex_value(b) {
            Some(v) => Some(v as u8),
            None => None,
        }
    } else {
        match (hex_value(a), hex_value(b)) {
            (Some(x), Some(y)) => Some((x * 16 + y) as u8),
            _ => None,
        }
    }
}

/// Every pair of `text` read as a hexadecimal byte; `None` for an odd
/// length or a pair that is not one.
pub open spec fn unhex_spec(text: Seq<u8>) -> Option<Seq<u8>>
    decreases text.len(),
{
    if text.len() % 2 != 0 {
        None
    } else if text.len() == 0 {
        Some(seq![])
    } else {
        match (hex_pair(text[0], text[1]), unhex_spec(text.subrange(2, text.len() as int))) {
            (Some(b), Some(rest)) => Some(seq![b] + rest),
            _ => None,
        }
    }
}

fn hex_value_of(b: u8) -> (r: Option<u8>)
    ensures
        r == (match hex_value(b) { Some(v) => Some(v as u8), None => None::<u8> }),
        r is Some ==> r->0 < 16,
{
    if 48 <= b && b <= 57 {
        Some(b - 48)
    } else if 65 <= b && b <= 70 {
        Some(b - 55)
    } else if 97 <= b && b <= 102 {
        Some(b - 87)
    } else {
        None
    }
}

/// Reads one hexadecimal byte field.
pub fn parse_hex_pair(a: u8, b: u8) -> (r: Option<u8>)
    ensures
        r == hex_pair(a, b),
{
    if a == 43 {
        hex_value_of(b)
    } else {
        match (hex_value_of(a), hex_value_of(b)) {
            (Some(x), Some(y)) => Some(x * 16 + y),
            _ => None,
        }
    }
}

/// Reading hex pairs splits at an even position.
pub proof fn lemma_unhex_split(text: Seq<u8>, i: int)
    requires
        0 <= i <= text.len(),
        i % 2 == 0,
        text.len() % 2 == 0,
        unhex_spec(text.subrange(0, i)) is Some,
    ensures
        unhex_spec(text) == match unhex_spec(text.subrange(i, text.len() as int)) {
            Some(rest) => Some(unhex_spec(text.subrange(0, i))->0 + rest),
            None => None::<Seq<u8>>,
        },
    decreases i,
{
    if i == 0 {
        assert(text.subrange(0, text.len() as int) =~= text);
        assert(unhex_spec(text.subrange(0, 0)) == Some(Seq::<u8>::empty()));
        match unhex_spec(text) {
            Some(r) => { assert(seq![] + r =~= r); },
            None => {},
        }
    } else {
        let tail = text.subrange(2, text.len() as int);
        let pre = text.subrange(0, i);
        assert(pre.subrange(2, pre.len() as int) =~= tail.subrange(0, i - 2));
        assert(pre[0] == text[0] && pre[1] == text[1]);
        lemma_unhex_split(tail, i - 2);
        assert(tail.subrange(i - 2, tail.len() as int) =~= text.subrange(i, text.len() as int));
        match unhex_spec(text.subrange(i, text.len() as int)) {
            Some(rest) => {
                let b = hex_pair(text[0], text[1])->0;
                let mid = unhex_spec(tail.subrange(0, i - 2))->0;
                assert(seq![b] + (mid + rest) =~= (seq![b] + mid) + rest);
            },
            None => {},
        }
    }
}

/// Decodes pairs of hexadecimal digits.
pub fn unhex(text: &[u8]) -> (r: Option<Vec<u8>>)
    ensures
        match unhex_spec(text@) {
            Some(s) => r is Some && r->0@ == s,
            None => r is None,
        },
{
    if text.len() % 2 != 0 {
        return None;
    }
    let mut out: Vec<u8> = Vec::new();
    let mut i: usize = 0;
    proof {
        assert(unhex_spec(text@.subrange(0, 0)) == Some(Seq::<u8>::empty()));
    }
    while i < text.len()
        invariant
            i <= text.len(),
            i % 2 == 0,
            text.len() % 2 == 0,
            unhex_spec(text@.subrange(0, i as int)) == Some(out@),
        decreases text.len() - i,
    {
        let pair = parse_hex_pair(text[i], text[i + 1]);
        proof {
            lemma_unhex_split(text@, i as int);
            let rest = text@.subrange(i as int, text.len() as int);
            assert(rest[0] == text@[i as int] && rest[1] == text@[i + 1]);
            assert(rest.subrange(2, rest.len() as int) =~= text@.subrange(i + 2, text.len() as int));
        }
        match pair {
            None => {
                return None;
            },
            Some(b) => {
                proof {
                    let next = text@.subrange(0, i + 2);
                    assert(next.subrange(0, i as int) =~= text@.subrange(0, i as int));
                    lemma_unhex_split(next, i as int);
                    let tail = next.subrange(i as int, next.len() as int);
                    assert(tail.subrange(2, tail.len() as int) =~= Seq::<u8>::empty());
                    assert(tail[0] == text@[i as int] && tail[1] == text@[i + 1]);
                    assert(hex_pair(tail[0], tail[1]) == Some(b));
                    assert(unhex_spec(tail.subrange(2, tail.len() as int)) == Some(Seq::<u8>::empty()));
                    assert(unhex_spec(tail) == Some(seq![b] + Seq::<u8>::empty()));
                    assert(out@.push(b) =~= out@ + (seq![b] + Seq::<u8>::empty()));
                }
                out.push(b);
            },
        }
        i = i + 2;
    }
    proof {
        assert(text@.subrange(0, text.len() as int) =~= text@);
    }
    Some(out)
}

/// The first index of `x` in `s`, or -1.
pub open spec fn find(s: Seq<u8>, x: u8) -> int
    decreases s.len(),
{
    if s.len() == 0 {
        -1
    } else if s[0] == x {
        0
    } else {
        let r = find(s.drop_first(), x);
        if r < 0 { -1 } else { r + 1 }
    }
}

pub proof fn lemma_find(s: Seq<u8>, x: u8)
    ensures
        -1 <= find(s, x) < s.len(),
        find(s, x) >= 0 ==> s[find(s, x)] == x,
        find(s, x) >= 0 ==> forall|j: int| 0 <= j < find(s, x) ==> s[j] != x,
        find(s, x) < 0 ==> forall|j: int| 0 <= j < s.len() ==> s[j] != x,
    decreases s.len(),
{
    if s.len() > 0 && s[0] != x {
        lemma_find(s.drop_first(), x);
        assert forall|j: int| 1 <= j < s.len() implies s[j] == s.drop_first()[j - 1] by {}
    }
}

/// The first index of `x` in `s`.
pub fn find_byte(s: &[u8], x: u8) -> (r: Option<usize>)
    ensures
        find(s@, x) < 0 ==> r is None,
        find(s@, x) >= 0 ==> (r matches Some(i) && i as int == find(s@, x)),
{
    proof {
        lemma_find(s@, x);
    }
    let mut i: usize = 0;
    while i < s.len()
        invariant
            i <= s.len(),
            forall|j: int| 0 <= j < i ==> s@[j] != x,
            -1 <= find(s@, x) < s@.len(),
            find(s@, x) >= 0 ==> s@[find(s@, x)] == x,
            find(s@, x) >= 0 ==> forall|j: int| 0 <= j < find(s@, x) ==> s@[j] != x,
            find(s@, x) < 0 ==> forall|j: int| 0 <= j < s@.len() ==> s@[j] != x,
        decreases s.len() - i,
    {
        if s[i] == x {
            return Some(i);
        }
        i = i + 1;
    }
    None
}

/// The pieces of `s` between the separators `sep`, as `split` gives them:
/// one more piece than there are separators.
pub open spec fn split(s: Seq<u8>, sep: u8) -> Seq<Seq<u8>>
    decreases s.len(),
{
    let i = find(s, sep);
    if i < 0 {
        seq![s]
    } else {
        proof {
            lemma_find(s, sep);
        }
        seq![s.subrange(0, i)] + split(s.subrange(i + 1, s.len() as int), sep)
    }
}

/// The views of byte vectors.
pub open spec fn views(v: Seq<Vec<u8>>) -> Seq<Seq<u8>> {
    v.map_values(|x: Vec<u8>| x@)
}

pub proof fn lemma_views_push(s: Seq<Vec<u8>>, v: Vec<u8>)
    ensures
        views(s.push(v)) == views(s).push(v@),
{
    assert(views(s.push(v)) =~= views(s).push(v@));
}

/// A copy of `s[from..to]`.
pub fn slice_to_vec(s: &[u8], from: usize, to: usize) -> (r: Vec<u8>)
    requires
        from <= to <= s@.len(),
    ensures
        r@ == s@.subrange(from as int, to as int),
{
    let mut r: Vec<u8> = Vec::new();
    let mut i: usize = from;
    while i < to
        invariant
            from <= i <= to,
            to <= s@.len(),
            r@ == s@.subrange(from as int, i as int),
        decreases to - i,
    {
        r.push(s[i]);
        i = i + 1;
        assert(r@ =~= s@.subrange(from as int, i as int));
    }
    r
}

/// Splits `s` at every `sep`.
pub fn split_bytes(s: &[u8], sep: u8) -> (r: Vec<Vec<u8>>)
    ensures
        views(r@) == split(s@, sep),
{
    let mut out: Vec<Vec<u8>> = Vec::new();
    let mut start: usize = 0;
    let ghost mut rest = s@;
    loop
        invariant
            start <= s@.len(),
            rest == s@.subrange(start as int, s@.len() as int),
            views(out@) + split(rest, sep) == split(s@, sep),
        decreases s@.len() - start,
    {
        let piece = slice_to_vec(s, start, s.len());
        match find_byte(piece.as_slice(), sep) {
            None => {
                proof {
                    assert(piece@ == rest);
                    assert(split(rest, sep) == seq![rest]);
                    assert(views(out@.push(piece)) =~= views(out@).push(piece@));
                    assert(views(out@).push(piece@) =~= views(out@) + split(rest, sep));
                }
                out.push(piece);
                return out;
            },
            Some(i) => {
                proof {
                    lemma_find(rest, sep);
                }
                let head = slice_to_vec(s, start, start + i);
                proof {
                    assert(head@ =~= rest.subrange(0, i as int));
                    assert(split(rest, sep) == seq![rest.subrange(0, i as int)] + split(rest.subrange(i + 1, rest.len() as int), sep));
                    assert(views(out@.push(head)) =~= views(out@).push(head@));
                    assert(rest.subrange(i + 1, rest.len() as int) =~= s@.subrange(start + i + 1, s@.len() as int));
                    assert(views(out@).push(head@) + split(rest.subrange(i + 1, rest.len() as int), sep) =~= views(out@) + split(rest, sep));
                    rest = rest.subrange(i + 1, rest.len() as int);
                }
                out.push(head);
                start = start + i + 1;
            },
        }
    }
}

/// Bytes read as characters, one each (ASCII and Latin-1).
pub open spec fn bytes_chars(s: Seq<u8>) -> Seq<char> {
    s.map_values(|b: u8| b as char)
}

/// The whitespace `str::trim` removes, among single bytes.
pub open spec fn is_space(b: u8) -> bool {
    b == 32 || (9 <= b <= 13)
}

/// `s` without leading whitespace.
pub open spec fn trim_start(s: Seq<u8>) -> Seq<u8>
    decreases s.len(),
{
    if s.len() > 0 && is_space(s[0]) {
        trim_start(s.drop_first())
    } else {
        s
    }
}

/// `s` without trailing whitespace.
pub open spec fn trim_end(s: Seq<u8>) -> Seq<u8>
    decreases s.len(),
{
    if s.len() > 0 && is_space(s.last()) {
        trim_end(s.drop_last())
    } else {
        s
    }
}

/// `s` without leading or trailing whitespace.
pub open spec fn trim(s: Seq<u8>) -> Seq<u8> {
    trim_end(trim_start(s))
}

proof fn lemma_digits_prefix(s: Seq<char>, i: int)
    requires
        0 <= i <= s.len(),
        all_digits(s),
    ensures
        digits_value(s.subrange(0, i)) <= digits_value(s),
    decreases s.len() - i,
{
    if i < s.len() {
        lemma_digits_prefix(s, i + 1);
        let p = s.subrange(0, i + 1);
        assert(p.drop_last() =~= s.subrange(0, i));
    } else {
        assert(s.subrange(0, i) =~= s);
    }
}

/// Reads an unsigned number as Rust's `FromStr` does: an optional `+`, then
/// one or more decimal digits with a value of at most `max`.
pub fn parse_uint_bytes(s: &[u8], max: u64) -> (r: Option<u64>)
    ensures
        match parse_uint(bytes_chars(s@), max as nat) {
            Some(v) => r == Some(v as u64),
            None => r is None,
        },
{
    let ghost cs = bytes_chars(s@);
    let start: usize = if s.len() > 0 && s[0] == 43 { 1 } else { 0 };
    let ghost d = if cs.len() > 0 && cs[0] == '+' { cs.drop_first() } else { cs };
    proof {
        assert(d =~= cs.subrange(start as int, cs.len() as int));
    }
    if start >= s.len() {
        return None;
    }
    let mut acc: u64 = 0;
    let mut i: usize = start;
    while i < s.len()
        invariant
            start <= i <= s@.len(),
            start < s@.len(),
            cs == bytes_chars(s@),
            d == cs.subrange(start as int, cs.len() as int),
            d == (if cs.len() > 0 && cs[0] == '+' { cs.drop_first() } else { cs }),
            all_digits(cs.subrange(start as int, i as int)),
            acc as nat == digits_value(cs.subrange(start as int, i as int)),
            acc <= max,
        decreases s.len() - i,
    {
        let b = s[i];
        if b < 48 || b > 57 {
            proof {
                assert(!is_digit(d[i - start]));
                assert(!all_digits(d));
                assert(parse_uint(cs, max as nat) is None);
            }
            return None;
        }
        let v = (b - 48) as u64;
        proof {
            let p = cs.subrange(start as int, i + 1);
            assert(p.drop_last() =~= cs.subrange(start as int, i as int));
            assert(p.last() == b as char);
            assert(all_digits(p));
        }
        if v > max || acc > (max - v) / 10 {
            proof {
                if v <= max {
                    assert(acc * 10 + v > max) by (nonlinear_arith)
                        requires
                            acc > (max - v) / 10,
                            v <= max,
                    ;
                }
                let p = cs.subrange(start as int, i + 1);
                assert(digits_value(p) > max);
                if all_digits(d) {
                    lemma_digits_prefix(d, i + 1 - start);
                    assert(d.subrange(0, i + 1 - start) =~= p);
                }
                assert(parse_uint(cs, max as nat) is None);
            }
            return None;
        }
        proof {
            assert(acc * 10 + v <= max) by (nonlinear_arith)
                requires
                    acc <= (max - v) / 10,
                    v <= max,
            ;
        }
        acc = acc * 10 + v;
        i = i + 1;
    }
    proof {
        assert(cs.subrange(start as int, s@.len() as int) =~= d);
    }
    Some(acc)
}

proof fn lemma_trim_start_skip(s: Seq<u8>, i: int)
    requires
        0 <= i <= s.len(),
        forall|j: int| 0 <= j < i ==> is_space(#[trigger] s[j]),
    ensures
        trim_start(s) == trim_start(s.subrange(i, s.len() as int)),
    decreases i,
{
    if i > 0 {
        assert(s.drop_first().subrange(i - 1, s.drop_first().len() as int) =~= s.subrange(i, s.len() as int));
        assert forall|j: int| 0 <= j < i - 1 implies is_space(#[trigger] s.drop_first()[j]) by {
            assert(s.drop_first()[j] == s[j + 1]);
        }
        lemma_trim_start_skip(s.drop_first(), i - 1);
    } else {
        assert(s.subrange(0, s.len() as int) =~= s);
    }
}

proof fn lemma_trim_end_skip(s: Seq<u8>, i: int)
    requires
        0 <= i <= s.len(),
        forall|j: int| i <= j < s.len() ==> is_space(#[trigger] s[j]),
    ensures
        trim_end(s) == trim_end(s.subrange(0, i)),
    decreases s.len() - i,
{
    if i < s.len() {
        assert(s.drop_last().subrange(0, i) =~= s.subrange(0, i));
        assert forall|j: int| i <= j < s.drop_last().len() implies is_space(#[trigger] s.drop_last()[j]) by {
            assert(s.drop_last()[j] == s[j]);
        }
        lemma_trim_end_skip(s.drop_last(), i);
    } else {
        assert(s.subrange(0, s.len() as int) =~= s);
    }
}

/// The bounds of `s` without leading or trailing whitespace.
pub fn trim_bounds(s: &[u8]) -> (r: (usize, usize))
    ensures
        r.0 <= r.1 <= s@.len(),
        s@.subrange(r.0 as int, r.1 as int) == trim(s@),
{
    let mut a: usize = 0;
    while a < s.len() && (s[a] == 32 || (9 <= s[a] && s[a] <= 13))
        invariant
            a <= s@.len(),
            forall|j: int| 0 <= j < a ==> is_space(#[trigger] s@[j]),
        decreases s@.len() - a,
    {
        a = a + 1;
    }
    let ghost t = s@.subrange(a as int, s@.len() as int);
    proof {
        lemma_trim_start_skip(s@, a as int);
        if t.len() > 0 {
            assert(t[0] == s@[a as int]);
        }
        assert(trim_start(t) == t);
    }
    let mut b: usize = s.len();
    while b > a && (s[b - 1] == 32 || (9 <= s[b - 1] && s[b - 1] <= 13))
        invariant
            a <= b <= s@.len(),
            t == s@.subrange(a as int, s@.len() as int),
            forall|j: int| b <= j < s@.len() ==> is_space(#[trigger] s@[j]),
        decreases b - a,
    {
        b = b - 1;
    }
    proof {
        assert forall|j: int| b - a <= j < t.len() implies is_space(#[trigger] t[j]) by {
            assert(t[j] == s@[j + a]);
        }
        lemma_trim_end_skip(t, b - a);
        let u = t.subrange(0, b - a);
        assert(u =~= s@.subrange(a as int, b as int));
        if u.len() > 0 {
            assert(u.last() == s@[b - 1]);
        }
        assert(trim_end(u) == u);
    }
    (a, b)
}

/// Reads an unsigned number from characters as Rust's `FromStr` does: an
/// optional `+`, then one or more decimal digits with a value of at most
/// `max`.
pub fn parse_uint_chars(s: &[char], max: u64) -> (r: Option<u64>)
    ensures
        match parse_uint(s@, max as nat) {
            Some(v) => r == Some(v as u64),
            None => r is None,
        },
{
    let ghost cs = s@;
    let start: usize = if s.len() > 0 && s[0] == '+' { 1 } else { 0 };
    let ghost d = if cs.len() > 0 && cs[0] == '+' { cs.drop_first() } else { cs };
    proof {
        assert(d =~= cs.subrange(start as int, cs.len() as int));
    }
    if start >= s.len() {
        return None;
    }
    let mut acc: u64 = 0;
    let mut i: usize = start;
    while i < s.len()
        invariant
            start <= i <= s@.len(),
            start < s@.len(),
            cs == s@,
            d == cs.subrange(start as int, cs.len() as int),
            d == (if cs.len() > 0 && cs[0] == '+' { cs.drop_first() } else { cs }),
            all_digits(cs.subrange(start as int, i as int)),
            acc as nat == digits_value(cs.subrange(start as int, i as int)),
            acc <= max,
        decreases s.len() - i,
    {
        let c = s[i];
        if c < '0' || c > '9' {
            proof {
                assert(!is_digit(d[i - start]));
                assert(!all_digits(d));
                assert(parse_uint(cs, max as nat) is None);
            }
            return None;
        }
        let v = (c as u32 - 48) as u64;
        proof {
            let p = cs.subrange(start as int, i + 1);
            assert(p.drop_last() =~= cs.subrange(start as int, i as int));
            assert(p.last() == c);
            assert(all_digits(p));
        }
        if v > max || acc > (max - v) / 10 {
            proof {
                if v <= max {
                    assert(acc * 10 + v > max) by (nonlinear_arith)
                        requires
                            acc > (max - v) / 10,
                            v <= max,
                    ;
                }
                let p = cs.subrange(start as int, i + 1);
                assert(digits_value(p) > max);
                if all_digits(d) {
                    lemma_digits_prefix(d, i + 1 - start);
                    assert(d.subrange(0, i + 1 - start) =~= p);
                }
                assert(parse_uint(cs, max as nat) is None);
            }
            return None;
        }
        proof {
            assert(acc * 10 + v <= max) by (nonlinear_arith)
                requires
                    acc <= (max - v) / 10,
                    v <= max,
            ;
        }
        acc = acc * 10 + v;
        i = i + 1;
    }
    proof {
        assert(cs.subrange(start as int, s@.len() as int) =~= d);
    }
    Some(acc)
}

/// Whether the characters of `a` are those of `b`.
pub fn chars_equal(a: &[char], b: &str) -> (r: bool)
    ensures
        r == (a@ == b@),
{
    let n = b.unicode_len();
    if a.len() != n {
        return false;
    }
    let mut i: usize = 0;
    while i < n
        invariant
            i <= n,
            n == b@.len(),
            a@.len() == n,
            forall|j: int| 0 <= j < i ==> a@[j] == b@[j],
        decreases n - i,
    {
        if a[i] != b.get_char(i) {
            return false;
        }
        i = i + 1;
    }
    assert(a@ =~= b@);
    true
}

/// The first index of `x` in `s`, or -1.
pub open spec fn find_c(s: Seq<char>, x: char) -> int
    decreases s.len(),
{
    if s.len() == 0 {
        -1
    } else if s[0] == x {
        0
    } else {
        let r = find_c(s.drop_first(), x);
        if r < 0 { -1 } else { r + 1 }
    }
}

pub proof fn lemma_find_c(s: Seq<char>, x: char)
    ensures
        -1 <= find_c(s, x) < s.len(),
        find_c(s, x) >= 0 ==> s[find_c(s, x)] == x,
        find_c(s, x) >= 0 ==> forall|j: int| 0 <= j < find_c(s, x) ==> s[j] != x,
        find_c(s, x) < 0 ==> forall|j: int| 0 <= j < s.len() ==> s[j] != x,
    decreases s.len(),
{
    if s.len() > 0 && s[0] != x {
        lemma_find_c(s.drop_first(), x);
        assert forall|j: int| 1 <= j < s.len() implies s[j] == s.drop_first()[j - 1] by {}
    }
}

/// The first index of `x` in `s` from `from` on.
pub fn find_char_from(s: &[char], x: char, from: usize) -> (r: Option<usize>)
    requires
        from <= s@.len(),
    ensures
        ({
            let t = s@.subrange(from as int, s@.len() as int);
            &&& find_c(t, x) < 0 ==> r is None
            &&& find_c(t, x) >= 0 ==> (r matches Some(i) && i as int == from + find_c(t, x))
        }),
{
    let ghost t = s@.subrange(from as int, s@.len() as int);
    proof {
        lemma_find_c(t, x);
    }
    let mut i: usize = from;
    while i < s.len()
        invariant
            from <= i <= s@.len(),
            t == s@.subrange(from as int, s@.len() as int),
            forall|j: int| from <= j < i ==> s@[j] != x,
            -1 <= find_c(t, x) < t.len(),
            find_c(t, x) >= 0 ==> t[find_c(t, x)] == x,
            find_c(t, x) >= 0 ==> forall|j: int| 0 <= j < find_c(t, x) ==> t[j] != x,
            find_c(t, x) < 0 ==> forall|j: int| 0 <= j < t.len() ==> t[j] != x,
        decreases s.len() - i,
    {
        if s[i] == x {
            proof {
                if find_c(t, x) >= 0 && find_c(t, x) < i - from {
                    assert(t[find_c(t, x)] == s@[from + find_c(t, x)]);
                }
                if find_c(t, x) < 0 || find_c(t, x) > i - from {
                    assert(t[i - from] == s@[i as int]);
                }
            }
            return Some(i);
        }
        i = i + 1;
    }
    proof {
        if find_c(t, x) >= 0 {
            assert(t[find_c(t, x)] == s@[from + find_c(t, x)]);
        }
    }
    None
}

/// The pieces of `s` between the separators `sep`.
pub open spec fn split_c(s: Seq<char>, sep: char) -> Seq<Seq<char>>
    decreases s.len(),
{
    let i = find_c(s, sep);
    if i < 0 {
        seq![s]
    } else {
        proof {
            lemma_find_c(s, sep);
        }
        seq![s.subrange(0, i)] + split_c(s.subrange(i + 1, s.len() as int), sep)
    }
}

/// A copy of `s[from..to]`.
pub fn chars_slice(s: &[char], from: usize, to: usize) -> (r: Vec<char>)
    requires
        from <= to <= s@.len(),
    ensures
        r@ == s@.subrange(from as int, to as int),
{
    let mut r: Vec<char> = Vec::new();
    let mut i: usize = from;
    while i < to
        invariant
            from <= i <= to,
            to <= s@.len(),
            r@ == s@.subrange(from as int, i as int),
        decreases to - i,
    {
        r.push(s[i]);
        i = i + 1;
        assert(r@ =~= s@.subrange(from as int, i as int));
    }
    r
}

/// The views of character vectors.
pub open spec fn char_views(v: Seq<Vec<char>>) -> Seq<Seq<char>> {
    v.map_values(|x: Vec<char>| x@)
}

/// Splits `s` at every `sep`.
pub fn split_chars(s: &[char], sep: char) -> (r: Vec<Vec<char>>)
    ensures
        char_views(r@) == split_c(s@, sep),
{
    let mut out: Vec<Vec<char>> = Vec::new();
    let mut start: usize = 0;
    let ghost mut rest = s@;
    assert(s@.subrange(0, s@.len() as int) =~= s@);
    loop
        invariant
            start <= s@.len(),
            rest == s@.subrange(start as int, s@.len() as int),
            char_views(out@) + split_c(rest, sep) == split_c(s@, sep),
        decreases s@.len() - start,
    {
        match find_char_from(s, sep, start) {
            None => {
                let piece = chars_slice(s, start, s.len());
                proof {
                    assert(split_c(rest, sep) == seq![rest]);
                    assert(char_views(out@.push(piece)) =~= char_views(out@).push(piece@));
                    assert(char_views(out@).push(piece@) =~= char_views(out@) + split_c(rest, sep));
                }
                out.push(piece);
                return out;
            },
            Some(j) => {
                proof {
                    lemma_find_c(rest, sep);
                }
                assert(find_c(rest, sep) >= 0);
                assert(j >= start);
                assert(j < s@.len());
                assert(j < s.len());
                let i: usize = j - start;
                let head = chars_slice(s, start, j);
                proof {
                    assert(head@ =~= rest.subrange(0, i as int));
                    assert(split_c(rest, sep) == seq![rest.subrange(0, i as int)] + split_c(rest.subrange(i + 1, rest.len() as int), sep));
                    assert(char_views(out@.push(head)) =~= char_views(out@).push(head@));
                    assert(rest.subrange(i + 1, rest.len() as int) =~= s@.subrange(j + 1, s@.len() as int));
                    assert(char_views(out@).push(head@) + split_c(rest.subrange(i + 1, rest.len() as int), sep) =~= char_views(out@) + split_c(rest, sep));
                    rest = rest.subrange(i + 1, rest.len() as int);
                }
                out.push(head);
                start = j + 1;
            },
        }
    }
}

/// The characters `str::trim` removes: Unicode White_Space.
pub open spec fn is_white(c: char) -> bool {
    c == ' ' || ('\t' <= c <= '\r') || c == '\u{85}' || c == '\u{a0}' || c == '\u{1680}' || ('\u{2000}' <= c <= '\u{200a}')
        || c == '\u{2028}' || c == '\u{2029}' || c == '\u{202f}' || c == '\u{205f}' || c == '\u{3000}'
}

/// `s` without leading white space.
pub open spec fn trim_start_c(s: Seq<char>) -> Seq<char>
    decreases s.len(),
{
    if s.len() > 0 && is_white(s[0]) {
        trim_start_c(s.drop_first())
    } else {
        s
    }
}

/// `s` without trailing white space.
pub open spec fn trim_end_c(s: Seq<char>) -> Seq<char>
    decreases s.len(),
{
    if s.len() > 0 && is_white(s.last()) {
        trim_end_c(s.drop_last())
    } else {
        s
    }
}

/// `s` without leading or trailing white space, as `str::trim` leaves it.
pub open spec fn trim_c(s: Seq<char>) -> Seq<char> {
    trim_end_c(trim_start_c(s))
}

pub fn white(c: char) -> (r: bool)
    ensures
        r == is_white(c),
{
    c == ' ' || ('\t' <= c && c <= '\r') || c == '\u{85}' || c == '\u{a0}' || c == '\u{1680}' || ('\u{2000}' <= c
        && c <= '\u{200a}') || c == '\u{2028}' || c == '\u{2029}' || c == '\u{202f}' || c == '\u{205f}' || c == '\u{3000}'
}

proof fn lemma_trim_start_c_skip(s: Seq<char>, i: int)
    requires
        0 <= i <= s.len(),
        forall|j: int| 0 <= j < i ==> is_white(#[trigger] s[j]),
    ensures
        trim_start_c(s) == trim_start_c(s.subrange(i, s.len() as int)),
    decreases i,
{
    if i > 0 {
        assert(s.drop_first().subrange(i - 1, s.drop_first().len() as int) =~= s.subrange(i, s.len() as int));
        assert forall|j: int| 0 <= j < i - 1 implies is_white(#[trigger] s.drop_first()[j]) by {
            assert(s.drop_first()[j] == s[j + 1]);
        }
        lemma_trim_start_c_skip(s.drop_first(), i - 1);
    } else {
        assert(s.subrange(0, s.len() as int) =~= s);
    }
}

proof fn lemma_trim_end_c_skip(s: Seq<char>, i: int)
    requires
        0 <= i <= s.len(),
        forall|j: int| i <= j < s.len() ==> is_white(#[trigger] s[j]),
    ensures
        trim_end_c(s) == trim_end_c(s.subrange(0, i)),
    decreases s.len() - i,
{
    if i < s.len() {
        assert(s.drop_last().subrange(0, i) =~= s.subrange(0, i));
        assert forall|j: int| i <= j < s.drop_last().len() implies is_white(#[trigger] s.drop_last()[j]) by {
            assert(s.drop_last()[j] == s[j]);
        }
        lemma_trim_end_c_skip(s.drop_last(), i);
    } else {
        assert(s.subrange(0, s.len() as int) =~= s);
    }
}

/// `s` without leading or trailing white space.
pub fn trim_chars(s: &[char]) -> (r: Vec<char>)
    ensures
        r@ == trim_c(s@),
{
    let mut a: usize = 0;
    while a < s.len() && white(s[a])
        invariant
            a <= s@.len(),
            forall|j: int| 0 <= j < a ==> is_white(#[trigger] s@[j]),
        decreases s@.len() - a,
    {
        a = a + 1;
    }
    let ghost t = s@.subrange(a as int, s@.len() as int);
    proof {
        lemma_trim_start_c_skip(s@, a as int);
        if t.len() > 0 {
            assert(t[0] == s@[a as int]);
        }
        assert(trim_start_c(t) == t);
    }
    let mut b: usize = s.len();
    while b > a && white(s[b - 1])
        invariant
            a <= b <= s@.len(),
            t == s@.subrange(a as int, s@.len() as int),
            forall|j: int| b <= j < s@.len() ==> is_white(#[trigger] s@[j]),
        decreases b - a,
    {
        b = b - 1;
    }
    proof {
        assert forall|j: int| b - a <= j < t.len() implies is_white(#[trigger] t[j]) by {
            assert(t[j] == s@[j + a]);
        }
        lemma_trim_end_c_skip(t, b - a);
        let u = t.subrange(0, b - a);
        assert(u =~= s@.subrange(a as int, b as int));
        if u.len() > 0 {
            assert(u.last() == s@[b - 1]);
        }
        assert(trim_end_c(u) == u);
    }
    chars_slice(s, a, b)
}

/// The bytes of characters below 256.
pub open spec fn char_bytes(s: Seq<char>) -> Seq<u8> {
    s.map_values(|c: char| c as u8)
}

/// Lower-case hex text is ASCII without line ends, and reads back as the
/// bytes it was written from.
pub proof fn lemma_hex_round_trip(data: Seq<u8>)
    ensures
        forall|i: int| 0 <= i < hex_text(data, false).len() ==> {
            let c = #[trigger] hex_text(data, false)[i];
            ('0' <= c <= '9' || 'a' <= c <= 'f')
        },
        hex_text(data, false).len() == 2 * data.len(),
        unhex_spec(char_bytes(hex_text(data, false))) == Some(data),
    decreases data.len(),
{
    let t = hex_text(data, false);
    if data.len() == 0 {
        assert(char_bytes(t) =~= Seq::<u8>::empty());
        assert(data =~= Seq::<u8>::empty());
    } else {
        let d = data.drop_last();
        let b = data.last();
        lemma_hex_round_trip(d);
        let p = hex_text(d, false);
        let hi = (b / 16) as nat;
        let lo = (b % 16) as nat;
        let h = hex_digit_lower(hi);
        let l = hex_digit_lower(lo);
        assert(t == p + seq![h, l]);
        assert forall|i: int| 0 <= i < t.len() implies {
            let c = #[trigger] t[i];
            ('0' <= c <= '9' || 'a' <= c <= 'f')
        } by {
            if i < p.len() {
                assert(t[i] == p[i]);
            }
        }
        let tb = char_bytes(t);
        let pb = char_bytes(p);
        assert(tb.subrange(0, p.len() as int) =~= pb);
        assert(tb.subrange(p.len() as int, tb.len() as int) =~= seq![h as u8, l as u8]);
        lemma_unhex_split(tb, p.len() as int);
        let pair = seq![h as u8, l as u8];
        assert(pair.subrange(2, 2) =~= Seq::<u8>::empty());
        assert(hi < 16 && lo < 16 && hi * 16 + lo == b);
        assert((h as u8) as nat == (if hi < 10 { 48 + hi } else { 87 + hi }));
        assert((l as u8) as nat == (if lo < 10 { 48 + lo } else { 87 + lo }));
        assert(hex_value(h as u8) == Some(hi));
        assert(hex_value(l as u8) == Some(lo));
        assert(hex_pair(h as u8, l as u8) == Some(b));
        assert(unhex_spec(Seq::<u8>::empty()) == Some(Seq::<u8>::empty()));
        assert(pair[0] == h as u8 && pair[1] == l as u8);
        assert(unhex_spec(pair) == Some(seq![b] + Seq::<u8>::empty()));
        assert(d + (seq![b] + Seq::<u8>::empty()) =~= data);
    }
}

} // verus!
