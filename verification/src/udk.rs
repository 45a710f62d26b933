//! User-defined keys (DECUDK): strings the host assigns to shifted F6–F20.

use vstd::prelude::*;
use crate::text::{
    bytes_chars, find, find_byte, lemma_find, lemma_views_push, parse_uint, parse_uint_bytes, slice_to_vec, split,
    split_bytes, is_space, unhex, unhex_spec, views,
};

verus! {

/// Total definition memory of a VT510; earlier terminals had less.
pub const CAPACITY: usize = 804;

/// The function key (6–20) a DECUDK key selector names.
pub open spec fn key_number_spec(selector: nat) -> Option<u8> {
    if 17 <= selector <= 21 {
        Some((selector - 11) as u8)
    } else if 23 <= selector <= 26 {
        Some((selector - 12) as u8)
    } else if 28 <= selector <= 29 {
        Some((selector - 13) as u8)
    } else if 31 <= selector <= 34 {
        Some((selector - 14) as u8)
    } else {
        None
    }
}

/// Maps a DECUDK key selector to a function key number (6–20).
pub fn key_number(selector: u16) -> (r: Option<u8>)
    ensures
        r == key_number_spec(selector as nat),
{
    if 17 <= selector && selector <= 21 {
        Some((selector - 11) as u8)
    } else if 23 <= selector && selector <= 26 {
        Some((selector - 12) as u8)
    } else if 28 <= selector && selector <= 29 {
        Some((selector - 13) as u8)
    } else if 31 <= selector && selector <= 34 {
        Some((selector - 14) as u8)
    } else {
        None
    }
}

/// The bytes `u8::is_ascii_whitespace` accepts.
pub open spec fn is_ascii_ws(b: u8) -> bool {
    b == 32 || b == 9 || b == 10 || b == 12 || b == 13
}

/// The length of the UTF-8 encoded Unicode whitespace character that
/// starts `s` (what `str::trim` removes), or 0.
pub open spec fn ws_lead(s: Seq<u8>) -> nat {
    if s.len() >= 1 && is_space(s[0]) {
        1
    } else if s.len() >= 2 && s[0] == 0xC2 && (s[1] == 0x85 || s[1] == 0xA0) {
        2
    } else if s.len() >= 3 && ws3(s[0], s[1], s[2]) {
        3
    } else {
        0
    }
}

/// The length of the UTF-8 encoded Unicode whitespace character that ends
/// `s`, or 0.
pub open spec fn ws_trail(s: Seq<u8>) -> nat {
    let n = s.len();
    if n >= 1 && is_space(s[n - 1]) {
        1
    } else if n >= 2 && s[n - 2] == 0xC2 && (s[n - 1] == 0x85 || s[n - 1] == 0xA0) {
        2
    } else if n >= 3 && ws3(s[n - 3], s[n - 2], s[n - 1]) {
        3
    } else {
        0
    }
}

/// Three-byte UTF-8 encodings of Unicode whitespace: U+1680, U+2000 to
/// U+200A, U+2028, U+2029, U+202F, U+205F and U+3000.
pub open spec fn ws3(a: u8, b: u8, c: u8) -> bool {
    (a == 0xE1 && b == 0x9A && c == 0x80) || (a == 0xE2 && b == 0x80 && ((0x80 <= c && c <= 0x8A) || c == 0xA8 || c == 0xA9
        || c == 0xAF)) || (a == 0xE2 && b == 0x81 && c == 0x9F) || (a == 0xE3 && b == 0x80 && c == 0x80)
}

/// UTF-8 text without leading Unicode whitespace.
pub open spec fn trim_utf8_start(s: Seq<u8>) -> Seq<u8>
    decreases s.len(),
{
    if ws_lead(s) > 0 {
        trim_utf8_start(s.subrange(ws_lead(s) as int, s.len() as int))
    } else {
        s
    }
}

/// UTF-8 text without trailing Unicode whitespace.
pub open spec fn trim_utf8_end(s: Seq<u8>) -> Seq<u8>
    decreases s.len(),
{
    if ws_trail(s) > 0 {
        trim_utf8_end(s.subrange(0, s.len() - ws_trail(s)))
    } else {
        s
    }
}

/// UTF-8 text without leading or trailing Unicode whitespace, as
/// `str::trim` leaves it.
pub open spec fn trim_utf8(s: Seq<u8>) -> Seq<u8> {
    trim_utf8_end(trim_utf8_start(s))
}

fn ws3_of(a: u8, b: u8, c: u8) -> (r: bool)
    ensures
        r == ws3(a, b, c),
{
    (a == 0xE1 && b == 0x9A && c == 0x80) || (a == 0xE2 && b == 0x80 && ((0x80 <= c && c <= 0x8A) || c == 0xA8 || c == 0xA9
        || c == 0xAF)) || (a == 0xE2 && b == 0x81 && c == 0x9F) || (a == 0xE3 && b == 0x80 && c == 0x80)
}

fn lead_at(s: &[u8], a: usize) -> (r: usize)
    requires
        a <= s@.len(),
    ensures
        r == ws_lead(s@.subrange(a as int, s@.len() as int)),
{
    let n = s.len();
    let ghost t = s@.subrange(a as int, n as int);
    if n - a >= 1 && (s[a] == 32 || (9 <= s[a] && s[a] <= 13)) {
        assert(t[0] == s@[a as int]);
        1
    } else if n - a >= 2 && s[a] == 0xC2 && (s[a + 1] == 0x85 || s[a + 1] == 0xA0) {
        assert(t[0] == s@[a as int] && t[1] == s@[a + 1]);
        2
    } else if n - a >= 3 && ws3_of(s[a], s[a + 1], s[a + 2]) {
        assert(t[0] == s@[a as int] && t[1] == s@[a + 1] && t[2] == s@[a + 2]);
        3
    } else {
        assert(n - a >= 1 ==> t[0] == s@[a as int]);
        assert(n - a >= 2 ==> t[1] == s@[a + 1]);
        assert(n - a >= 3 ==> t[2] == s@[a + 2]);
        0
    }
}

fn trail_at(s: &[u8], a: usize, b: usize) -> (r: usize)
    requires
        a <= b <= s@.len(),
    ensures
        r == ws_trail(s@.subrange(a as int, b as int)),
{
    let ghost t = s@.subrange(a as int, b as int);
    if b - a >= 1 && (s[b - 1] == 32 || (9 <= s[b - 1] && s[b - 1] <= 13)) {
        assert(t[t.len() - 1] == s@[b - 1]);
        1
    } else if b - a >= 2 && s[b - 2] == 0xC2 && (s[b - 1] == 0x85 || s[b - 1] == 0xA0) {
        assert(t[t.len() - 1] == s@[b - 1] && t[t.len() - 2] == s@[b - 2]);
        2
    } else if b - a >= 3 && ws3_of(s[b - 3], s[b - 2], s[b - 1]) {
        assert(t[t.len() - 1] == s@[b - 1] && t[t.len() - 2] == s@[b - 2] && t[t.len() - 3] == s@[b - 3]);
        3
    } else {
        assert(b - a >= 1 ==> t[t.len() - 1] == s@[b - 1]);
        assert(b - a >= 2 ==> t[t.len() - 2] == s@[b - 2]);
        assert(b - a >= 3 ==> t[t.len() - 3] == s@[b - 3]);
        0
    }
}

/// The bounds of `s` without its leading and trailing Unicode whitespace.
fn trim_utf8_bounds(s: &[u8]) -> (r: (usize, usize))
    ensures
        r.0 <= r.1 <= s@.len(),
        s@.subrange(r.0 as int, r.1 as int) == trim_utf8(s@),
{
    let n = s.len();
    let mut a: usize = 0;
    assert(s@.subrange(0, n as int) =~= s@);
    let mut k = lead_at(s, a);
    while k > 0
        invariant
            a <= n == s@.len(),
            k == ws_lead(s@.subrange(a as int, n as int)),
            trim_utf8_start(s@.subrange(a as int, n as int)) == trim_utf8_start(s@),
        decreases n - a,
    {
        let ghost t = s@.subrange(a as int, n as int);
        assert(t.subrange(k as int, t.len() as int) =~= s@.subrange(a + k, n as int));
        a = a + k;
        k = lead_at(s, a);
    }
    let ghost u = s@.subrange(a as int, n as int);
    assert(trim_utf8_start(u) == u);
    let mut b: usize = n;
    let mut k = trail_at(s, a, b);
    while k > 0
        invariant
            a <= b <= n == s@.len(),
            u == s@.subrange(a as int, n as int),
            u == trim_utf8_start(s@),
            k == ws_trail(s@.subrange(a as int, b as int)),
            trim_utf8_end(s@.subrange(a as int, b as int)) == trim_utf8_end(u),
        decreases b - a,
    {
        let ghost t = s@.subrange(a as int, b as int);
        assert(t.subrange(0, t.len() - k) =~= s@.subrange(a as int, b - k));
        b = b - k;
        k = trail_at(s, a, b);
    }
    let ghost w = s@.subrange(a as int, b as int);
    assert(trim_utf8_end(w) == w);
    (a, b)
}

/// One `Kyn/hex` definition read: `None` is malformed (loading stops),
/// `Some(None)` is blank (skipped), `Some(Some((i, s)))` sets key `i` (F6 is
/// 0) to `s`.
pub open spec fn parse_definition(d: Seq<u8>) -> Option<Option<(int, Seq<u8>)>> {
    let slash = find(d, 47);
    if slash < 0 {
        if forall|j: int| 0 <= j < d.len() ==> is_ascii_ws(#[trigger] d[j]) {
            Some(None)
        } else {
            None
        }
    } else {
        match parse_uint(bytes_chars(trim_utf8(d.subrange(0, slash))), 65535) {
            None => None,
            Some(sel) => match key_number_spec(sel) {
                None => None,
                Some(k) => match unhex_spec(d.subrange(slash + 1, d.len() as int)) {
                    None => None,
                    Some(bytes) => Some(Some(((k - 6) as int, bytes))),
                },
            },
        }
    }
}

/// The total length of the definitions.
pub open spec fn total(keys: Seq<Seq<u8>>) -> nat
    decreases keys.len(),
{
    if keys.len() == 0 {
        0
    } else {
        total(keys.drop_last()) + keys.last().len()
    }
}

/// The definitions after loading `defs` in order: a malformed definition,
/// or one that would overflow [`CAPACITY`], ends loading; earlier ones stay.
pub open spec fn apply_definitions(keys: Seq<Seq<u8>>, defs: Seq<Seq<u8>>) -> Seq<Seq<u8>>
    decreases defs.len(),
{
    if defs.len() == 0 {
        keys
    } else {
        match parse_definition(defs[0]) {
            None => keys,
            Some(None) => apply_definitions(keys, defs.drop_first()),
            Some(Some((i, bytes))) => if total(keys) - keys[i].len() + bytes.len() > CAPACITY {
                keys
            } else {
                apply_definitions(keys.update(i, bytes), defs.drop_first())
            },
        }
    }
}

/// Fifteen empty definitions.
pub open spec fn no_keys() -> Seq<Seq<u8>> {
    Seq::new(15, |i: int| Seq::<u8>::empty())
}

proof fn lemma_total_update(keys: Seq<Seq<u8>>, i: int, v: Seq<u8>)
    requires
        0 <= i < keys.len(),
    ensures
        total(keys.update(i, v)) == total(keys) - keys[i].len() + v.len(),
        total(keys) >= keys[i].len(),
    decreases keys.len(),
{
    let u = keys.update(i, v);
    if i == keys.len() - 1 {
        assert(u.drop_last() =~= keys.drop_last());
    } else {
        lemma_total_update(keys.drop_last(), i, v);
        assert(u.drop_last() =~= keys.drop_last().update(i, v));
    }
}

proof fn lemma_total_empty(n: nat)
    ensures
        total(Seq::new(n, |i: int| Seq::<u8>::empty())) == 0,
    decreases n,
{
    if n > 0 {
        lemma_total_empty((n - 1) as nat);
        assert(Seq::new(n, |i: int| Seq::<u8>::empty()).drop_last() =~= Seq::new((n - 1) as nat, |i: int| Seq::<u8>::empty()));
    }
}

/// Loading keeps the definitions within [`CAPACITY`].
pub proof fn lemma_apply_within_capacity(keys: Seq<Seq<u8>>, defs: Seq<Seq<u8>>)
    requires
        keys.len() == 15,
        total(keys) <= CAPACITY,
    ensures
        apply_definitions(keys, defs).len() == 15,
        total(apply_definitions(keys, defs)) <= CAPACITY,
    decreases defs.len(),
{
    if defs.len() > 0 {
        match parse_definition(defs[0]) {
            None => {},
            Some(None) => lemma_apply_within_capacity(keys, defs.drop_first()),
            Some(Some((i, bytes))) => {
                if total(keys) - keys[i].len() + bytes.len() <= CAPACITY {
                    lemma_total_update(keys, i, bytes);
                    lemma_apply_within_capacity(keys.update(i, bytes), defs.drop_first());
                }
            },
        }
    }
}

pub struct UserKeys {
    /// Definitions for F6–F20, indexed by function key number − 6.
    keys: Vec<Vec<u8>>,
    /// Locked keys cannot be redefined by the host until unlocked in Set-Up.
    pub locked: bool,
}

impl UserKeys {
    /// The definitions of F6–F20.
    pub closed spec fn view(&self) -> Seq<Seq<u8>> {
        views(self.keys@)
    }

    /// Whether the host may not redefine keys.
    pub closed spec fn is_locked(&self) -> bool {
        self.locked
    }

    /// Fifteen definitions that fit the memory.
    pub closed spec fn wf(&self) -> bool {
        &&& self.keys@.len() == 15
        &&& total(self.view()) <= CAPACITY
    }

    /// Well-formed keys hold fifteen definitions that together fit in the
    /// memory for them.
    pub proof fn lemma_within_capacity(&self)
        requires
            self.wf(),
        ensures
            self.view().len() == 15,
            total(self.view()) <= CAPACITY,
    {
        assert(views(self.keys@).len() == 15);
    }

    pub fn new(locked: bool) -> (r: UserKeys)
        ensures
            r.wf(),
            r.view() == no_keys(),
            r.is_locked() == locked,
    {
        let mut keys: Vec<Vec<u8>> = Vec::new();
        let mut i: usize = 0;
        while i < 15
            invariant
                i <= 15,
                views(keys@) == Seq::new(i as nat, |k: int| Seq::<u8>::empty()),
            decreases 15 - i,
        {
            let v: Vec<u8> = Vec::new();
            proof {
                lemma_views_push(keys@, v);
            }
            keys.push(v);
            i = i + 1;
            assert(views(keys@) =~= Seq::new(i as nat, |k: int| Seq::<u8>::empty()));
        }
        proof {
            lemma_total_empty(15);
        }
        UserKeys { keys, locked }
    }

    /// The definition of function key `function_key` (6–20), if it has one.
    pub fn get(&self, function_key: u8) -> (r: Option<&[u8]>)
        requires
            self.wf(),
        ensures
            match r {
                Some(s) => 6 <= function_key <= 20 && s@ == self.view()[function_key - 6] && s@.len() > 0,
                None => !(6 <= function_key <= 20) || self.view()[function_key - 6].len() == 0,
            },
    {
        if function_key < 6 || function_key > 20 {
            return None;
        }
        let index = (function_key - 6) as usize;
        let k = &self.keys[index];
        if k.len() == 0 {
            None
        } else {
            Some(k.as_slice())
        }
    }

    pub fn used(&self) -> (r: usize)
        requires
            self.wf(),
        ensures
            r == total(self.view()),
            r <= CAPACITY,
    {
        let mut n: usize = 0;
        let mut i: usize = 0;
        while i < self.keys.len()
            invariant
                i <= self.keys@.len(),
                self.wf(),
                n == total(self.view().subrange(0, i as int)),
            decreases self.keys@.len() - i,
        {
            proof {
                let p = self.view().subrange(0, i + 1);
                assert(p.drop_last() =~= self.view().subrange(0, i as int));
                lemma_total_prefix(self.view(), i + 1);
            }
            n = n + self.keys[i].len();
            i = i + 1;
        }
        assert(self.view().subrange(0, i as int) =~= self.view());
        n
    }

    pub fn clear(&mut self)
        requires
            old(self).wf(),
        ensures
            final(self).wf(),
            final(self).view() == no_keys(),
            final(self).is_locked() == old(self).is_locked(),
    {
        let fresh = UserKeys::new(self.locked);
        self.keys = fresh.keys;
    }

    /// Applies a DECUDK string (`Kyn/hex;Kyn/hex…`). `clear_all` is Pc = 0.
    /// Loading stops at the first malformed definition; earlier ones stay.
    /// Returns `false` if the keys are locked and nothing was changed.
    pub fn load(&mut self, clear_all: bool, data: &[u8]) -> (r: bool)
        requires
            old(self).wf(),
        ensures
            final(self).wf(),
            total(final(self).view()) <= CAPACITY,
            final(self).is_locked() == old(self).is_locked(),
            r == !old(self).is_locked(),
            old(self).is_locked() ==> final(self).view() == old(self).view(),
            !old(self).is_locked() ==> final(self).view() == apply_definitions(
                if clear_all { no_keys() } else { old(self).view() },
                split(data@, 59),
            ),
    {
        if self.locked {
            return false;
        }
        if clear_all {
            self.clear();
        }
        assert(self.view() == if clear_all { no_keys() } else { old(self).view() });
        let defs = split_bytes(data, 59);
        let ghost target = apply_definitions(self.view(), views(defs@));
        proof {
            lemma_total_prefix(self.view(), 15);
            assert(self.view().subrange(0, 15) =~= self.view());
            lemma_apply_within_capacity(self.view(), views(defs@));
            assert(views(defs@).subrange(0, defs@.len() as int) =~= views(defs@));
        }
        let mut n: usize = 0;
        while n < defs.len()
            invariant
                n <= defs@.len(),
                self.wf(),
                !self.locked,
                self.locked == old(self).locked,
                target == apply_definitions(self.view(), views(defs@).subrange(n as int, defs@.len() as int)),
            ensures
                self.wf(),
                self.locked == old(self).locked,
                target == self.view(),
            decreases defs@.len() - n,
        {
            if n + 1 == defs.len() {
                proof {
                    assert(views(defs@).subrange(n + 1, defs@.len() as int) =~= Seq::<Seq<u8>>::empty());
                }
            }
            let definition = defs[n].as_slice();
            let ghost rest = views(defs@).subrange(n as int, defs@.len() as int);
            proof {
                assert(rest[0] == definition@);
                assert(rest.drop_first() =~= views(defs@).subrange(n + 1, defs@.len() as int));
            }
            match self.parse(definition) {
                None => {
                    proof {
                        assert(target == self.view());
                    }
                    break;
                },
                Some(None) => {},
                Some(Some((index, bytes))) => {
                    proof {
                        lemma_total_update(self.view(), index as int, bytes@);
                    }
                    let others = self.used() - self.keys[index].len();
                    if bytes.len() > CAPACITY - others {
                        proof {
                            assert(target == self.view());
                        }
                        break;
                    }
                    let ghost before = self.view();
                    let ghost b = bytes@;
                    self.keys.set(index, bytes);
                    proof {
                        assert(self.view() =~= before.update(index as int, b));
                        assert(total(self.view()) <= CAPACITY);
                    }
                },
            }
            n = n + 1;
        }
        true
    }

    /// Reads one definition (see [`parse_definition`]).
    fn parse(&self, d: &[u8]) -> (r: Option<Option<(usize, Vec<u8>)>>)
        ensures
            match parse_definition(d@) {
                None => r is None,
                Some(None) => r == Some(None::<(usize, Vec<u8>)>),
                Some(Some((i, bytes))) => r matches Some(Some((j, v))) && j == i && v@ == bytes && 0 <= i < 15,
            },
    {
        match find_byte(d, 47) {
            None => {
                let mut i: usize = 0;
                while i < d.len()
                    invariant
                        i <= d@.len(),
                        find(d@, 47) < 0,
                        forall|j: int| 0 <= j < i ==> is_ascii_ws(#[trigger] d@[j]),
                    decreases d@.len() - i,
                {
                    let b = d[i];
                    if !(b == 32 || b == 9 || b == 10 || b == 12 || b == 13) {
                        assert(!is_ascii_ws(d@[i as int]));
                        return None;
                    }
                    i = i + 1;
                }
                Some(None)
            },
            Some(slash) => {
                proof {
                    lemma_find(d@, 47);
                }
                let dl = d.len();
                assert(slash < dl);
                let head = slice_to_vec(d, 0, slash);
                let (a, b) = trim_utf8_bounds(head.as_slice());
                let field = slice_to_vec(head.as_slice(), a, b);
                assert(field@ == trim_utf8(d@.subrange(0, slash as int)));
                let selector = match parse_uint_bytes(field.as_slice(), 65535) {
                    Some(v) => v as u16,
                    None => {
                        assert(parse_uint(bytes_chars(trim_utf8(d@.subrange(0, slash as int))), 65535) is None);
                        return None;
                    },
                };
                let k = match key_number(selector) {
                    Some(k) => k,
                    None => {
                        return None;
                    },
                };
                let hex = slice_to_vec(d, slash + 1, dl);
                match unhex(hex.as_slice()) {
                    Some(bytes) => Some(Some(((k - 6) as usize, bytes))),
                    None => None,
                }
            },
        }
    }
}

proof fn lemma_total_prefix(keys: Seq<Seq<u8>>, i: int)
    requires
        0 <= i <= keys.len(),
    ensures
        total(keys.subrange(0, i)) <= total(keys),
        i > 0 ==> total(keys.subrange(0, i)) == total(keys.subrange(0, i - 1)) + keys[i - 1].len(),
    decreases keys.len() - i,
{
    if i > 0 {
        assert(keys.subrange(0, i).drop_last() =~= keys.subrange(0, i - 1));
    }
    if i < keys.len() {
        lemma_total_prefix(keys, i + 1);
        assert(keys.subrange(0, i + 1).drop_last() =~= keys.subrange(0, i));
    } else {
        assert(keys.subrange(0, i) =~= keys);
    }
}

impl Default for UserKeys {
    /// No key defined, unlocked.
    fn default() -> (r: UserKeys)
        ensures
            r.wf(),
            r.view() == no_keys(),
            !r.is_locked(),
    {
        UserKeys::new(false)
    }
}

/// The DECUDK key selectors name F6 to F20 in order: 17 to 21, 23 to 26,
/// 28 and 29, 31 to 34 (the codes the keys send, CSI 17 ~ to CSI 34 ~),
/// 17 naming F6 and 34 naming F20; every other selector names no key.
pub proof fn lemma_key_selectors(a: nat, b: nat)
    ensures
        key_number_spec(a) is Some <==> (17 <= a <= 21 || 23 <= a <= 26 || a == 28 || a == 29 || 31 <= a <= 34),
        key_number_spec(a) matches Some(k) ==> 6 <= k <= 20,
        (a < b && key_number_spec(a) is Some && key_number_spec(b) is Some) ==> key_number_spec(a)->0
            < key_number_spec(b)->0,
        key_number_spec(17) == Some(6u8),
        key_number_spec(34) == Some(20u8),
{
}

/// Loading stops at the first malformed definition: whatever follows it,
/// the keys stay as they were before it.
pub proof fn lemma_load_stops_at_malformed(keys: Seq<Seq<u8>>, bad: Seq<u8>, rest: Seq<Seq<u8>>)
    requires
        parse_definition(bad) is None,
    ensures
        apply_definitions(keys, seq![bad] + rest) == keys,
{
    assert((seq![bad] + rest)[0] == bad);
}

/// A well-formed definition that fits sets its key to its bytes, and the
/// definitions after it apply to the keys so changed.
pub proof fn lemma_load_sets_one_key(keys: Seq<Seq<u8>>, d: Seq<u8>, rest: Seq<Seq<u8>>, i: int, bytes: Seq<u8>)
    requires
        parse_definition(d) == Some(Some((i, bytes))),
        0 <= i < keys.len(),
        total(keys) - keys[i].len() + bytes.len() <= CAPACITY,
    ensures
        apply_definitions(keys, seq![d] + rest) == apply_definitions(keys.update(i, bytes), rest),
{
    assert((seq![d] + rest)[0] == d);
    assert((seq![d] + rest).drop_first() =~= rest);
}

} // verus!
