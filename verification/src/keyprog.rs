//! VT520 key programming (EK-VT520-RM chapter 5 and 8): keys identified by
//! LK411 key-station number can be programmed by the host to perform a
//! local function or send a user-defined sequence (DECPFK), alphanumeric
//! keys to send other codes (DECPAK), copied from another key's default
//! (DECCKD), locked or restored (DECPKA), and reported (DECRQKD).

use vstd::prelude::*;
use crate::keyboard::{Key, KeyMods};
use crate::text::{
    bytes_chars, dec, hex_text, push_dec, push_hex, string_from, find, find_byte, lemma_views_push, parse_uint, parse_uint_bytes, slice_to_vec,
    split, split_bytes, unhex, unhex_spec, views,
};

verus! {

/// Memory for programmed keys (DECPKFMR reports it as 768 bytes).
pub const MEMORY: usize = 768;

/// The LK411 key-station number of a DEC key (EK-VT520-RM figure 8-4, VT
/// layout); shifted F6–F20 are their function key.
pub open spec fn station_spec(key: Key) -> Option<u8> {
        match key {
            Key::Delete => Some(15u8),
            Key::Tab => Some(16u8),
            Key::Return => Some(43u8),
            Key::Find => Some(75u8),
            Key::InsertHere => Some(80u8),
            Key::Remove => Some(85u8),
            Key::Select => Some(76u8),
            Key::PrevScreen => Some(81u8),
            Key::NextScreen => Some(86u8),
            Key::Up => Some(83u8),
            Key::Left => Some(79u8),
            Key::Down => Some(84u8),
            Key::Right => Some(89u8),
            Key::Pf1 => Some(90u8),
            Key::Pf2 => Some(95u8),
            Key::Pf3 => Some(100u8),
            Key::Pf4 => Some(105u8),
            Key::KeypadMinus => Some(106u8),
            Key::KeypadComma => Some(107u8),
            Key::KeypadEnter => Some(108u8),
            Key::KeypadPeriod => Some(104u8),
            Key::Keypad(d) => if d == 0 { Some(99u8) }
                else if d == 7 { Some(91u8) }
                else if d == 8 { Some(96u8) }
                else if d == 9 { Some(101u8) }
                else if d == 4 { Some(92u8) }
                else if d == 5 { Some(97u8) }
                else if d == 6 { Some(102u8) }
                else if d == 1 { Some(93u8) }
                else if d == 2 { Some(98u8) }
                else if d == 3 { Some(103u8) }
                else { None },
            Key::Function(n) | Key::UserDefined(n) => if 1 <= n <= 16 { Some((n + 111) as u8) } else if 17 <= n <= 20 { Some((n + 113) as u8) } else { None },
            _ => None,
        }
}

/// The DEC key at an LK411 key station.
pub open spec fn key_spec(station: u8) -> Option<Key> {
        match station {
            15 => Some(Key::Delete),
            16 => Some(Key::Tab),
            43 => Some(Key::Return),
            75 => Some(Key::Find),
            76 => Some(Key::Select),
            79 => Some(Key::Left),
            80 => Some(Key::InsertHere),
            81 => Some(Key::PrevScreen),
            83 => Some(Key::Up),
            84 => Some(Key::Down),
            85 => Some(Key::Remove),
            86 => Some(Key::NextScreen),
            89 => Some(Key::Right),
            90 => Some(Key::Pf1),
            91 => Some(Key::Keypad(7)),
            92 => Some(Key::Keypad(4)),
            93 => Some(Key::Keypad(1)),
            95 => Some(Key::Pf2),
            96 => Some(Key::Keypad(8)),
            97 => Some(Key::Keypad(5)),
            98 => Some(Key::Keypad(2)),
            99 => Some(Key::Keypad(0)),
            100 => Some(Key::Pf3),
            101 => Some(Key::Keypad(9)),
            102 => Some(Key::Keypad(6)),
            103 => Some(Key::Keypad(3)),
            104 => Some(Key::KeypadPeriod),
            105 => Some(Key::Pf4),
            106 => Some(Key::KeypadMinus),
            107 => Some(Key::KeypadComma),
            108 => Some(Key::KeypadEnter),
            112 => Some(Key::Function(1)),
            113 => Some(Key::Function(2)),
            114 => Some(Key::Function(3)),
            115 => Some(Key::Function(4)),
            116 => Some(Key::Function(5)),
            117 => Some(Key::Function(6)),
            118 => Some(Key::Function(7)),
            119 => Some(Key::Function(8)),
            120 => Some(Key::Function(9)),
            121 => Some(Key::Function(10)),
            122 => Some(Key::Function(11)),
            123 => Some(Key::Function(12)),
            124 => Some(Key::Function(13)),
            125 => Some(Key::Function(14)),
            126 => Some(Key::Function(15)),
            127 => Some(Key::Function(16)),
            130 => Some(Key::Function(17)),
            131 => Some(Key::Function(18)),
            132 => Some(Key::Function(19)),
            133 => Some(Key::Function(20)),
            _ => None,
        }
}

/// The key a station number stands for: shifted function keys are their
/// function key.
pub open spec fn plain_key(key: Key) -> Key {
    match key {
        Key::UserDefined(n) => Key::Function(n),
        k => k,
    }
}

/// The station of a key holds that key.
pub proof fn lemma_station_round_trip(key: Key)
    ensures
        station_spec(key) matches Some(s) ==> key_spec(s) == Some(plain_key(key)),
{
}

/// The station table read the other way: the key at a station has that
/// station; a shifted function key has its function key's station.
pub proof fn lemma_station_table(station: u8, n: u8)
    ensures
        key_spec(station) matches Some(k) ==> station_spec(k) == Some(station),
        station_spec(Key::UserDefined(n)) == station_spec(Key::Function(n)),
{
}

/// The station number of a DEC key; shifted F6–F20 are their function key.
pub fn station_of(key: Key) -> (r: Option<u8>)
    ensures
        r == station_spec(key),
{
        match key {
            Key::Delete => Some(15u8),
            Key::Tab => Some(16u8),
            Key::Return => Some(43u8),
            Key::Find => Some(75u8),
            Key::InsertHere => Some(80u8),
            Key::Remove => Some(85u8),
            Key::Select => Some(76u8),
            Key::PrevScreen => Some(81u8),
            Key::NextScreen => Some(86u8),
            Key::Up => Some(83u8),
            Key::Left => Some(79u8),
            Key::Down => Some(84u8),
            Key::Right => Some(89u8),
            Key::Pf1 => Some(90u8),
            Key::Pf2 => Some(95u8),
            Key::Pf3 => Some(100u8),
            Key::Pf4 => Some(105u8),
            Key::KeypadMinus => Some(106u8),
            Key::KeypadComma => Some(107u8),
            Key::KeypadEnter => Some(108u8),
            Key::KeypadPeriod => Some(104u8),
            Key::Keypad(d) => if d == 0 { Some(99u8) }
                else if d == 7 { Some(91u8) }
                else if d == 8 { Some(96u8) }
                else if d == 9 { Some(101u8) }
                else if d == 4 { Some(92u8) }
                else if d == 5 { Some(97u8) }
                else if d == 6 { Some(102u8) }
                else if d == 1 { Some(93u8) }
                else if d == 2 { Some(98u8) }
                else if d == 3 { Some(103u8) }
                else { None },
            Key::Function(n) | Key::UserDefined(n) => if 1 <= n && n <= 16 { Some((n + 111) as u8) } else if 17 <= n && n <= 20 { Some((n + 113) as u8) } else { None },
            _ => None,
        }
}

pub fn key_at(station: u8) -> (r: Option<Key>)
    ensures
        r == key_spec(station),
{
        match station {
            15 => Some(Key::Delete),
            16 => Some(Key::Tab),
            43 => Some(Key::Return),
            75 => Some(Key::Find),
            76 => Some(Key::Select),
            79 => Some(Key::Left),
            80 => Some(Key::InsertHere),
            81 => Some(Key::PrevScreen),
            83 => Some(Key::Up),
            84 => Some(Key::Down),
            85 => Some(Key::Remove),
            86 => Some(Key::NextScreen),
            89 => Some(Key::Right),
            90 => Some(Key::Pf1),
            91 => Some(Key::Keypad(7)),
            92 => Some(Key::Keypad(4)),
            93 => Some(Key::Keypad(1)),
            95 => Some(Key::Pf2),
            96 => Some(Key::Keypad(8)),
            97 => Some(Key::Keypad(5)),
            98 => Some(Key::Keypad(2)),
            99 => Some(Key::Keypad(0)),
            100 => Some(Key::Pf3),
            101 => Some(Key::Keypad(9)),
            102 => Some(Key::Keypad(6)),
            103 => Some(Key::Keypad(3)),
            104 => Some(Key::KeypadPeriod),
            105 => Some(Key::Pf4),
            106 => Some(Key::KeypadMinus),
            107 => Some(Key::KeypadComma),
            108 => Some(Key::KeypadEnter),
            112 => Some(Key::Function(1)),
            113 => Some(Key::Function(2)),
            114 => Some(Key::Function(3)),
            115 => Some(Key::Function(4)),
            116 => Some(Key::Function(5)),
            117 => Some(Key::Function(6)),
            118 => Some(Key::Function(7)),
            119 => Some(Key::Function(8)),
            120 => Some(Key::Function(9)),
            121 => Some(Key::Function(10)),
            122 => Some(Key::Function(11)),
            123 => Some(Key::Function(12)),
            124 => Some(Key::Function(13)),
            125 => Some(Key::Function(14)),
            126 => Some(Key::Function(15)),
            127 => Some(Key::Function(16)),
            130 => Some(Key::Function(17)),
            131 => Some(Key::Function(18)),
            132 => Some(Key::Function(19)),
            133 => Some(Key::Function(20)),
            _ => None,
        }
}

/// Main key array stations (typewriter keys), which DECPAK programs.
pub open spec fn is_alphanumeric_spec(station: u8) -> bool {
    (1 <= station <= 13) || (17 <= station <= 28) || (31 <= station <= 42) || (45 <= station <= 55) || station == 61
}

/// Main key array stations (typewriter keys), which DECPAK programs.
pub fn is_alphanumeric(station: u8) -> (r: bool)
    ensures
        r == is_alphanumeric_spec(station),
{
    (1 <= station && station <= 13) || (17 <= station && station <= 28) || (31 <= station && station <= 42)
        || (45 <= station && station <= 55) || station == 61
}

/// The DECPFK/DECRQKD modifier number of held modifiers.
pub open spec fn modifier_spec(mods: KeyMods) -> u8 {
    (1 + (if mods.shift { 1int } else { 0 }) + (if mods.alt { 2int } else { 0 }) + (if mods.ctrl { 4int } else { 0 })) as u8
}

/// The DECPFK/DECRQKD modifier number: 1 none, 2 Shift, 3 Alt, 4 Alt+Shift,
/// 5 Ctrl, 6 Ctrl+Shift, 7 Alt+Ctrl, 8 all.
pub fn modifier_number(mods: KeyMods) -> (r: u8)
    ensures
        r == modifier_spec(mods),
        1 <= r <= 8,
{
    mods.decfnk()
}

/// Where a user-defined sequence goes.
#[derive(Debug, Clone, Copy, PartialEq, Eq, Structural)]
pub enum Direction {
    /// The host in full duplex, the screen in local mode.
    Normal,
    /// The screen only.
    Local,
    /// The host only.
    Remote,
}

pub open spec fn direction_code(d: Direction) -> u8 {
    match d {
        Direction::Normal => 0,
        Direction::Local => 1,
        Direction::Remote => 2,
    }
}

impl Direction {
    pub fn code(self) -> (r: u8)
        ensures
            r == direction_code(self),
    {
        match self {
            Direction::Normal => 0,
            Direction::Local => 1,
            Direction::Remote => 2,
        }
    }
}

/// Local function number 100: send a user-defined sequence.
pub const SEND_SEQUENCE: u16 = 100;

/// A programmed action: a local function (0 = none, 100 = send `uds`).
#[derive(Debug, Clone, PartialEq, Eq)]
pub struct Program {
    pub function: u16,
    pub uds: Vec<u8>,
    pub direction: Direction,
}

/// What a program holds.
pub open spec fn program_view(p: Program) -> (u16, Seq<u8>, Direction) {
    (p.function, p.uds@, p.direction)
}

impl Program {
    /// A copy of the program.
    pub fn copy(&self) -> (r: Program)
        ensures
            program_view(r) == program_view(*self),
    {
        Program { function: self.function, uds: copy_bytes(&self.uds), direction: self.direction }
    }
}

/// A copy of a byte vector.
pub fn copy_bytes(v: &Vec<u8>) -> (r: Vec<u8>)
    ensures
        r@ == v@,
{
    crate::text::slice_to_vec(v.as_slice(), 0, v.len())
}

/// An alphanumeric key's DECPAK definition.
#[derive(Debug, Clone, PartialEq, Eq)]
pub struct Alphanumeric {
    /// Codes for the seven modifier states: unshifted, shifted, alternate
    /// shifted, group 2 unshifted, shifted, alternate shifted, Control.
    pub codes: Vec<Option<Vec<u8>>>,
    /// What Alt with the key does.
    pub alt: Option<Program>,
}

/// The view of an optional byte vector.
pub open spec fn opt_view(o: Option<Vec<u8>>) -> Option<Seq<u8>> {
    match o {
        Some(v) => Some(v@),
        None => None,
    }
}

/// The view of an optional program.
pub open spec fn opt_program_view(o: Option<Program>) -> Option<(u16, Seq<u8>, Direction)> {
    match o {
        Some(p) => Some(program_view(p)),
        None => None,
    }
}

/// The views of optional byte vectors.
pub open spec fn codes_view(c: Seq<Option<Vec<u8>>>) -> Seq<Option<Seq<u8>>> {
    Seq::new(c.len(), |i: int| opt_view(c[i]))
}

/// What an alphanumeric definition holds.
pub open spec fn alnum_view(a: Alphanumeric) -> (Seq<Option<Seq<u8>>>, Option<(u16, Seq<u8>, Direction)>) {
    (codes_view(a.codes@), opt_program_view(a.alt))
}

/// What a program holds: function, sequence and direction.
pub type ProgramView = (u16, Seq<u8>, Direction);

/// The first index whose key is `k`, or -1.
pub open spec fn key_index<K, V>(s: Seq<(K, V)>, k: K) -> int
    decreases s.len(),
{
    if s.len() == 0 {
        -1
    } else if s[0].0 == k {
        0
    } else {
        let r = key_index(s.drop_first(), k);
        if r < 0 { -1 } else { r + 1 }
    }
}

pub proof fn lemma_key_index<K, V>(s: Seq<(K, V)>, k: K)
    ensures
        -1 <= key_index(s, k) < s.len(),
        key_index(s, k) >= 0 ==> s[key_index(s, k)].0 == k,
        key_index(s, k) >= 0 ==> forall|j: int| 0 <= j < key_index(s, k) ==> s[j].0 != k,
        key_index(s, k) < 0 ==> forall|j: int| 0 <= j < s.len() ==> s[j].0 != k,
    decreases s.len(),
{
    if s.len() > 0 && s[0].0 != k {
        lemma_key_index(s.drop_first(), k);
        assert forall|j: int| 1 <= j < s.len() implies s[j] == s.drop_first()[j - 1] by {}
    }
}

/// The value stored under `k`.
pub open spec fn lookup<K, V>(s: Seq<(K, V)>, k: K) -> Option<V> {
    let i = key_index(s, k);
    if i < 0 { None } else { Some(s[i].1) }
}

/// `s` with `k` set to `v`: replaced where `k` is, else added at the end.
pub open spec fn upsert<K, V>(s: Seq<(K, V)>, k: K, v: V) -> Seq<(K, V)> {
    let i = key_index(s, k);
    if i < 0 { s.push((k, v)) } else { s.update(i, (k, v)) }
}

/// `s` without the entries under `k`, in order.
pub open spec fn without<K, V>(s: Seq<(K, V)>, k: K) -> Seq<(K, V)>
    decreases s.len(),
{
    if s.len() == 0 {
        s
    } else {
        let r = without(s.drop_last(), k);
        if s.last().0 != k { r.push(s.last()) } else { r }
    }
}

/// `s` without the function-key programs of station `st`, in order.
pub open spec fn without_station<V>(s: Seq<((u8, u8), V)>, st: u8) -> Seq<((u8, u8), V)>
    decreases s.len(),
{
    if s.len() == 0 {
        s
    } else {
        let r = without_station(s.drop_last(), st);
        if s.last().0.0 != st { r.push(s.last()) } else { r }
    }
}

/// Memory a program takes.
pub open spec fn program_size(p: ProgramView) -> nat {
    4 + p.1.len()
}

/// Bytes of the defined codes.
pub open spec fn codes_size(c: Seq<Option<Seq<u8>>>) -> nat
    decreases c.len(),
{
    if c.len() == 0 {
        0
    } else {
        codes_size(c.drop_last()) + match c.last() {
            Some(v) => v.len(),
            None => 0,
        }
    }
}

/// Memory an alphanumeric definition takes.
pub open spec fn alnum_size(a: (Seq<Option<Seq<u8>>>, Option<ProgramView>)) -> nat {
    2 + codes_size(a.0) + match a.1 {
        Some(p) => program_size(p),
        None => 0,
    }
}

pub open spec fn funcs_size(s: Seq<((u8, u8), ProgramView)>) -> nat
    decreases s.len(),
{
    if s.len() == 0 { 0 } else { funcs_size(s.drop_last()) + program_size(s.last().1) }
}

pub open spec fn alnums_size(s: Seq<(u8, (Seq<Option<Seq<u8>>>, Option<ProgramView>))>) -> nat
    decreases s.len(),
{
    if s.len() == 0 { 0 } else { alnums_size(s.drop_last()) + alnum_size(s.last().1) }
}

/// The programmed state of the keys: function-key programs by (station,
/// modifier), alphanumeric definitions by station, and DECCKD copies
/// (destination, source).
pub ghost struct Programs {
    pub funcs: Seq<((u8, u8), ProgramView)>,
    pub alnums: Seq<(u8, (Seq<Option<Seq<u8>>>, Option<ProgramView>))>,
    pub copies: Seq<(u8, u8)>,
}

/// Memory the definitions take.
pub open spec fn used_spec(p: Programs) -> nat {
    funcs_size(p.funcs) + alnums_size(p.alnums) + 2 * p.copies.len()
}

/// Nothing programmed.
pub open spec fn no_programs() -> Programs {
    Programs { funcs: Seq::empty(), alnums: Seq::empty(), copies: Seq::empty() }
}

pub struct KeyPrograms {
    fkeys: Vec<(u8, u8)>,
    fprogs: Vec<Program>,
    akeys: Vec<u8>,
    avals: Vec<Alphanumeric>,
    copies: Vec<(u8, u8)>,
    pub locked: bool,
}

impl KeyPrograms {
    pub closed spec fn view(&self) -> Programs {
        Programs {
            funcs: Seq::new(self.fkeys@.len(), |i: int| (self.fkeys@[i], program_view(self.fprogs@[i]))),
            alnums: Seq::new(self.akeys@.len(), |i: int| (self.akeys@[i], alnum_view(self.avals@[i]))),
            copies: self.copies@,
        }
    }

    pub closed spec fn is_locked(&self) -> bool {
        self.locked
    }

    /// Keys and values pair up, and the definitions fit the memory.
    pub closed spec fn wf(&self) -> bool {
        &&& self.fkeys@.len() == self.fprogs@.len()
        &&& self.akeys@.len() == self.avals@.len()
        &&& used_spec(self.view()) <= MEMORY
    }

    /// Key programs kept by this library's operations never use more than
    /// the memory, and the free memory is the rest of it.
    pub proof fn lemma_within_memory(&self)
        requires
            self.wf(),
        ensures
            used_spec(self.view()) <= MEMORY,
            MEMORY - used_spec(self.view()) >= 0,
    {
    }

    /// Nothing programmed, unlocked.
    pub fn new() -> (r: KeyPrograms)
        ensures
            r.wf(),
            r.view() == no_programs(),
            !r.is_locked(),
    {
        let r = KeyPrograms {
            fkeys: Vec::new(),
            fprogs: Vec::new(),
            akeys: Vec::new(),
            avals: Vec::new(),
            copies: Vec::new(),
            locked: false,
        };
        assert(r.view().funcs =~= Seq::<((u8, u8), ProgramView)>::empty());
        assert(r.view().alnums =~= Seq::<(u8, (Seq<Option<Seq<u8>>>, Option<ProgramView>))>::empty());
        r
    }
}

proof fn lemma_codes_prefix(c: Seq<Option<Seq<u8>>>, i: int)
    requires
        0 <= i <= c.len(),
    ensures
        codes_size(c.subrange(0, i)) <= codes_size(c),
    decreases c.len() - i,
{
    if i < c.len() {
        lemma_codes_prefix(c, i + 1);
        assert(c.subrange(0, i + 1).drop_last() =~= c.subrange(0, i));
    } else {
        assert(c.subrange(0, i) =~= c);
    }
}

proof fn lemma_funcs_prefix(s: Seq<((u8, u8), ProgramView)>, i: int)
    requires
        0 <= i <= s.len(),
    ensures
        funcs_size(s.subrange(0, i)) <= funcs_size(s),
    decreases s.len() - i,
{
    if i < s.len() {
        lemma_funcs_prefix(s, i + 1);
        assert(s.subrange(0, i + 1).drop_last() =~= s.subrange(0, i));
    } else {
        assert(s.subrange(0, i) =~= s);
    }
}

proof fn lemma_alnums_prefix(s: Seq<(u8, (Seq<Option<Seq<u8>>>, Option<ProgramView>))>, i: int)
    requires
        0 <= i <= s.len(),
    ensures
        alnums_size(s.subrange(0, i)) <= alnums_size(s),
    decreases s.len() - i,
{
    if i < s.len() {
        lemma_alnums_prefix(s, i + 1);
        assert(s.subrange(0, i + 1).drop_last() =~= s.subrange(0, i));
    } else {
        assert(s.subrange(0, i) =~= s);
    }
}

/// Sizes of a state with a bound, for computing it without overflow.
pub open spec fn used_bounded(p: Programs, bound: nat) -> Option<nat> {
    if used_spec(p) <= bound { Some(used_spec(p)) } else { None }
}

impl KeyPrograms {
    /// Memory the definitions take (a program 4 bytes and its sequence, an
    /// alphanumeric key 2 bytes, its codes and its Alt program, a copy 2).
    pub fn used(&self) -> (r: usize)
        requires
            self.wf(),
        ensures
            r == used_spec(self.view()),
    {
        match self.used_within(MEMORY) {
            Some(n) => n,
            None => 0,
        }
    }

    /// The memory used, if it is at most `bound` (at most [`MEMORY`] + 1024).
    fn used_within(&self, bound: usize) -> (r: Option<usize>)
        requires
            self.fkeys@.len() == self.fprogs@.len(),
            self.akeys@.len() == self.avals@.len(),
            bound <= MEMORY + 1024,
        ensures
            match used_bounded(self.view(), bound as nat) {
                Some(n) => r == Some(n as usize),
                None => r is None,
            },
    {
        let ghost v = self.view();
        let mut n: usize = 0;
        let mut i: usize = 0;
        while i < self.fprogs.len()
            invariant
                i <= self.fprogs@.len(),
                self.fkeys@.len() == self.fprogs@.len(),
                v == self.view(),
                bound <= MEMORY + 1024,
                n == funcs_size(v.funcs.subrange(0, i as int)),
                n <= bound,
            decreases self.fprogs@.len() - i,
        {
            proof {
                assert(v.funcs.subrange(0, i + 1).drop_last() =~= v.funcs.subrange(0, i as int));
                lemma_funcs_prefix(v.funcs, i + 1);
            }
            let size = self.fprogs[i].uds.len();
            if size > bound || 4 + size > bound - n {
                proof {
                    lemma_funcs_prefix(v.funcs, i + 1);
                }
                return None;
            }
            n = n + 4 + size;
            i = i + 1;
        }
        proof {
            assert(v.funcs.subrange(0, i as int) =~= v.funcs);
        }
        let ghost nf = n;
        let mut j: usize = 0;
        while j < self.avals.len()
            invariant
                j <= self.avals@.len(),
                self.akeys@.len() == self.avals@.len(),
                v == self.view(),
                bound <= MEMORY + 1024,
                nf == funcs_size(v.funcs),
                n == nf + alnums_size(v.alnums.subrange(0, j as int)),
                n <= bound,
            decreases self.avals@.len() - j,
        {
            proof {
                assert(v.alnums.subrange(0, j + 1).drop_last() =~= v.alnums.subrange(0, j as int));
                lemma_alnums_prefix(v.alnums, j + 1);
            }
            let a = &self.avals[j];
            let alt: usize = match &a.alt {
                Some(p) => {
                    if p.uds.len() > bound {
                        return None;
                    }
                    4 + p.uds.len()
                },
                None => 0,
            };
            if alt > bound - n || 2 > bound - n - alt {
                return None;
            }
            let codes = match codes_within(&a.codes, bound - n - alt - 2) {
                Some(c) => c,
                None => {
                    return None;
                },
            };
            n = n + alt + 2 + codes;
            j = j + 1;
        }
        proof {
            assert(v.alnums.subrange(0, j as int) =~= v.alnums);
        }
        if self.copies.len() > bound || 2 * self.copies.len() > bound - n {
            return None;
        }
        Some(n + 2 * self.copies.len())
    }
}

/// The bytes of the defined codes, if at most `bound`.
fn codes_within(c: &Vec<Option<Vec<u8>>>, bound: usize) -> (r: Option<usize>)
    ensures
        codes_size(codes_view(c@)) <= bound ==> r == Some(codes_size(codes_view(c@)) as usize),
        codes_size(codes_view(c@)) > bound ==> r is None,
{
    let ghost v = codes_view(c@);
    let mut n: usize = 0;
    let mut i: usize = 0;
    while i < c.len()
        invariant
            i <= c@.len(),
            v == codes_view(c@),
            n == codes_size(v.subrange(0, i as int)),
            n <= bound,
        decreases c@.len() - i,
    {
        proof {
            lemma_codes_prefix(v, i + 1);
            assert(v.subrange(0, i + 1).drop_last() =~= v.subrange(0, i as int));
        }
        match &c[i] {
            Some(b) => {
                if b.len() > bound - n {
                    return None;
                }
                n = n + b.len();
            },
            None => {},
        }
        i = i + 1;
    }
    proof {
        assert(v.subrange(0, i as int) =~= v);
    }
    Some(n)
}

/// The index of the first entry with key `k` in a key vector.
fn index_of_pair(keys: &Vec<(u8, u8)>, k: (u8, u8)) -> (r: Option<usize>)
    ensures
        match r {
            Some(i) => i < keys@.len() && keys@[i as int] == k && forall|j: int| 0 <= j < i ==> keys@[j] != k,
            None => forall|j: int| 0 <= j < keys@.len() ==> keys@[j] != k,
        },
{
    let mut i: usize = 0;
    while i < keys.len()
        invariant
            i <= keys@.len(),
            forall|j: int| 0 <= j < i ==> keys@[j] != k,
        decreases keys@.len() - i,
    {
        if keys[i].0 == k.0 && keys[i].1 == k.1 {
            return Some(i);
        }
        i = i + 1;
    }
    None
}

fn index_of_byte(keys: &Vec<u8>, k: u8) -> (r: Option<usize>)
    ensures
        match r {
            Some(i) => i < keys@.len() && keys@[i as int] == k && forall|j: int| 0 <= j < i ==> keys@[j] != k,
            None => forall|j: int| 0 <= j < keys@.len() ==> keys@[j] != k,
        },
{
    let mut i: usize = 0;
    while i < keys.len()
        invariant
            i <= keys@.len(),
            forall|j: int| 0 <= j < i ==> keys@[j] != k,
        decreases keys@.len() - i,
    {
        if keys[i] == k {
            return Some(i);
        }
        i = i + 1;
    }
    None
}

/// The index of the first copy whose destination is `k`.
fn index_of_dest(copies: &Vec<(u8, u8)>, k: u8) -> (r: Option<usize>)
    ensures
        match r {
            Some(i) => i < copies@.len() && copies@[i as int].0 == k && forall|j: int| 0 <= j < i ==> copies@[j].0 != k,
            None => forall|j: int| 0 <= j < copies@.len() ==> copies@[j].0 != k,
        },
{
    let mut i: usize = 0;
    while i < copies.len()
        invariant
            i <= copies@.len(),
            forall|j: int| 0 <= j < i ==> copies@[j].0 != k,
        decreases copies@.len() - i,
    {
        if copies[i].0 == k {
            return Some(i);
        }
        i = i + 1;
    }
    None
}

/// `key_index` is the first position holding the key.
proof fn lemma_first_key<K, V>(s: Seq<(K, V)>, k: K, i: int)
    requires
        -1 <= i < s.len(),
        i >= 0 ==> s[i].0 == k && forall|j: int| 0 <= j < i ==> s[j].0 != k,
        i < 0 ==> forall|j: int| 0 <= j < s.len() ==> s[j].0 != k,
    ensures
        key_index(s, k) == i,
{
    lemma_key_index(s, k);
    let f = key_index(s, k);
    if f >= 0 && i >= 0 {
        if f < i {
            assert(s[f].0 != k);
        } else if i < f {
            assert(s[i].0 != k);
        }
    } else if f >= 0 {
        assert(s[f].0 != k);
    } else if i >= 0 {
        assert(s[i].0 != k);
    }
}

impl KeyPrograms {
    pub fn free(&self) -> (r: usize)
        requires
            self.wf(),
        ensures
            r == MEMORY - used_spec(self.view()),
    {
        MEMORY - self.used()
    }

    /// What a DEC key does: a program, if the host set one.
    pub fn function(&self, station: u8, mods: KeyMods) -> (r: Option<&Program>)
        requires
            self.wf(),
        ensures
            match lookup(self.view().funcs, (station, modifier_spec(mods))) {
                Some(p) => r matches Some(q) && program_view(*q) == p,
                None => r is None,
            },
    {
        let m = modifier_number(mods);
        match index_of_pair(&self.fkeys, (station, m)) {
            Some(i) => {
                proof {
                    lemma_first_key(self.view().funcs, (station, m), i as int);
                }
                Some(&self.fprogs[i])
            },
            None => {
                proof {
                    lemma_first_key(self.view().funcs, (station, m), -1);
                }
                None
            },
        }
    }

    /// The key whose default a station uses (DECCKD), or the station itself.
    pub fn default_source(&self, station: u8) -> (r: u8)
        requires
            self.wf(),
        ensures
            r == match lookup(self.view().copies, station) {
                Some(s) => s,
                None => station,
            },
    {
        match index_of_dest(&self.copies, station) {
            Some(i) => {
                proof {
                    lemma_first_key(self.view().copies, station, i as int);
                }
                self.copies[i].1
            },
            None => {
                proof {
                    lemma_first_key(self.view().copies, station, -1);
                }
                station
            },
        }
    }

    pub fn alphanumeric(&self, station: u8) -> (r: Option<&Alphanumeric>)
        requires
            self.wf(),
        ensures
            match lookup(self.view().alnums, station) {
                Some(a) => r matches Some(q) && alnum_view(*q) == a,
                None => r is None,
            },
    {
        match index_of_byte(&self.akeys, station) {
            Some(i) => {
                proof {
                    lemma_first_key(self.view().alnums, station, i as int);
                }
                Some(&self.avals[i])
            },
            None => {
                proof {
                    lemma_first_key(self.view().alnums, station, -1);
                }
                None
            },
        }
    }

    /// DECPKA: 1 locks, 2 restores factory defaults, 3 recalls saved
    /// definitions (the same as 2: there is no non-volatile memory).
    pub fn key_action(&mut self, action: u16)
        requires
            old(self).wf(),
        ensures
            final(self).wf(),
            final(self).is_locked() == (old(self).is_locked() || action == 1),
            final(self).view() == (if (action == 2 || action == 3) && !old(self).is_locked() {
                no_programs()
            } else {
                old(self).view()
            }),
    {
        if action == 1 {
            self.locked = true;
        } else if (action == 2 || action == 3) && !self.locked {
            let locked = self.locked;
            *self = KeyPrograms::new();
            self.locked = locked;
        }
    }
}

/// Field `i` of a definition, empty when missing.
pub open spec fn field(fields: Seq<Seq<u8>>, i: int) -> Seq<u8> {
    if 0 <= i < fields.len() { fields[i] } else { Seq::empty() }
}

/// A numeric field: empty is 0, else an unsigned 16-bit number.
pub open spec fn number(f: Seq<u8>) -> Option<nat> {
    if f.len() == 0 { Some(0) } else { parse_uint(bytes_chars(f), 65535) }
}

/// The DECPFK direction code: 0 normal, 1 local, 2 remote.
pub open spec fn direction_of(n: Option<nat>) -> Option<Direction> {
    match n {
        Some(v) => if v == 0 {
            Some(Direction::Normal)
        } else if v == 1 {
            Some(Direction::Local)
        } else if v == 2 {
            Some(Direction::Remote)
        } else {
            None
        },
        None => None,
    }
}

/// One DECPFK definition `Key/Mod/Function/UDS/Direction` read; `None` when
/// it is malformed, names no key, names Break (F5, station 116), a modifier
/// above 8 or a sequence longer than 255 bytes.
pub open spec fn pfk_definition(d: Seq<u8>) -> Option<((u8, u8), ProgramView)> {
    let fields = split(d, 47);
    match (number(field(fields, 0)), number(field(fields, 1)), number(field(fields, 2))) {
        (Some(st), Some(md), Some(fnc)) => {
            if st > 255 || key_spec(st as u8) is None || st == 116 || md > 8 {
                None
            } else {
                match (unhex_spec(field(fields, 3)), direction_of(number(field(fields, 4)))) {
                    (Some(uds), Some(dir)) => if uds.len() > 255 {
                        None
                    } else {
                        Some(((st as u8, (if md < 1 { 1 } else { md }) as u8), (fnc as u16, uds, dir)))
                    },
                    _ => None,
                }
            }
        },
        _ => None,
    }
}

/// A DECPFK definition `Key/Mod/Function/UDS/Direction` stores, under
/// the key station of its first field and the modifier of its second (0 or
/// empty read as 1), the function number of its third field, the bytes
/// its fourth field writes in hex, and the direction its fifth field names:
/// 0 normal, 1 local (the screen only), 2 remote (the host only), whose
/// report code gives that number back. A definition naming Break (station
/// 116), a modifier above 8 or any other direction is refused.
pub proof fn lemma_pfk_definition_fields(d: Seq<u8>)
    ensures
        ({
            let fs = split(d, 47);
            let st = number(field(fs, 0));
            let md = number(field(fs, 1));
            let n = number(field(fs, 4));
            &&& pfk_definition(d) matches Some((k, pv)) ==> {
                &&& st == Some(k.0 as nat)
                &&& (md == Some(0nat) ==> k.1 == 1) && (md matches Some(m) ==> (m >= 1 ==> k.1 == m))
                &&& number(field(fs, 2)) == Some(pv.0 as nat)
                &&& unhex_spec(field(fs, 3)) == Some(pv.1)
                &&& (pv.2 == Direction::Normal) == (n == Some(0nat))
                &&& (pv.2 == Direction::Local) == (n == Some(1nat))
                &&& (pv.2 == Direction::Remote) == (n == Some(2nat))
                &&& n == Some(direction_code(pv.2) as nat)
            }
            &&& (n matches Some(v) ==> (v > 2 ==> pfk_definition(d) is None))
            &&& st == Some(116nat) ==> pfk_definition(d) is None
            &&& (md matches Some(m) ==> (m > 8 ==> pfk_definition(d) is None))
        }),
{
}

/// The state after DECPFK definitions: empty ones are skipped; a malformed
/// one, or one that does not fit the memory, ends processing and earlier
/// ones stay.
pub open spec fn pfk_apply(p: Programs, defs: Seq<Seq<u8>>) -> Programs
    decreases defs.len(),
{
    if defs.len() == 0 {
        p
    } else if defs[0].len() == 0 {
        pfk_apply(p, defs.drop_first())
    } else {
        match pfk_definition(defs[0]) {
            None => p,
            Some((k, prog)) => {
                let q = Programs { funcs: upsert(p.funcs, k, prog), ..p };
                if used_spec(q) > MEMORY { p } else { pfk_apply(q, defs.drop_first()) }
            },
        }
    }
}

/// Setting `k` stores `v` under it and leaves every other key's value.
proof fn lemma_lookup_upsert<K, V>(s: Seq<(K, V)>, k: K, v: V, other: K)
    ensures
        lookup(upsert(s, k, v), k) == Some(v),
        other != k ==> lookup(upsert(s, k, v), other) == lookup(s, other),
{
    lemma_key_index(s, k);
    lemma_key_index(s, other);
    let u = upsert(s, k, v);
    let i = key_index(s, k);
    if i < 0 {
        lemma_first_key(u, k, s.len() as int);
        if other != k {
            lemma_first_key(u, other, key_index(s, other));
        }
    } else {
        lemma_first_key(u, k, i);
        if other != k {
            lemma_first_key(u, other, key_index(s, other));
        }
    }
}

/// A function key programmed by DECPFK reads back what its definition
/// says, when the definition is well formed and fits the memory; the
/// other keys keep their programs.
pub proof fn lemma_programmed_key_reads_back(p: Programs, d: Seq<u8>, other: (u8, u8))
    requires
        d.len() > 0,
        pfk_definition(d) is Some,
        used_spec(Programs { funcs: upsert(p.funcs, pfk_definition(d).unwrap().0, pfk_definition(d).unwrap().1), ..p }) <= MEMORY,
    ensures
        lookup(pfk_apply(p, seq![d]).funcs, pfk_definition(d).unwrap().0) == Some(pfk_definition(d).unwrap().1),
        other != pfk_definition(d).unwrap().0 ==> lookup(pfk_apply(p, seq![d]).funcs, other) == lookup(p.funcs, other),
{
    let (k, pv) = pfk_definition(d).unwrap();
    let q = Programs { funcs: upsert(p.funcs, k, pv), ..p };
    assert(seq![d].drop_first() =~= Seq::<Seq<u8>>::empty());
    assert(seq![d][0] == d);
    assert(pfk_apply(q, Seq::<Seq<u8>>::empty()) == q);
    assert(pfk_apply(p, seq![d]) == q);
    lemma_lookup_upsert(p.funcs, k, pv, other);
}

/// Reads a numeric field.
fn number_of(f: &[u8]) -> (r: Option<u16>)
    ensures
        match number(f@) {
            Some(v) => r == Some(v as u16),
            None => r is None,
        },
{
    if f.len() == 0 {
        return Some(0);
    }
    match parse_uint_bytes(f, 65535) {
        Some(v) => Some(v as u16),
        None => None,
    }
}

/// Field `i`, empty when missing.
fn field_of(fields: &Vec<Vec<u8>>, i: usize) -> (r: &[u8])
    ensures
        r@ == field(views(fields@), i as int),
{
    if i < fields.len() {
        fields[i].as_slice()
    } else {
        &[]
    }
}

/// Reads one DECPFK definition.
fn parse_pfk(d: &[u8]) -> (r: Option<((u8, u8), Program)>)
    ensures
        match pfk_definition(d@) {
            Some((k, p)) => r matches Some((k2, q)) && k2 == k && program_view(q) == p,
            None => r is None,
        },
{
    let fields = split_bytes(d, 47);
    let st = match number_of(field_of(&fields, 0)) {
        Some(v) => v,
        None => {
            return None;
        },
    };
    let md = match number_of(field_of(&fields, 1)) {
        Some(v) => v,
        None => {
            return None;
        },
    };
    let fnc = match number_of(field_of(&fields, 2)) {
        Some(v) => v,
        None => {
            return None;
        },
    };
    if st > 255 {
        return None;
    }
    let station = st as u8;
    if key_at(station).is_none() || st == 116 || md > 8 {
        return None;
    }
    let uds = match unhex(field_of(&fields, 3)) {
        Some(u) => u,
        None => {
            return None;
        },
    };
    let direction = match number_of(field_of(&fields, 4)) {
        Some(0) => Direction::Normal,
        Some(1) => Direction::Local,
        Some(2) => Direction::Remote,
        _ => {
            return None;
        },
    };
    if uds.len() > 255 {
        return None;
    }
    let modifier: u8 = if md < 1 { 1 } else { md as u8 };
    Some(((station, modifier), Program { function: fnc, uds, direction }))
}

impl KeyPrograms {
    /// Sets the program of `k` unless the memory would overflow; returns
    /// whether it did.
    fn set_function(&mut self, k: (u8, u8), p: Program) -> (r: bool)
        requires
            old(self).wf(),
        ensures
            final(self).wf(),
            final(self).locked == old(self).locked,
            ({
                let q = Programs { funcs: upsert(old(self).view().funcs, k, program_view(p)), ..old(self).view() };
                &&& r == (used_spec(q) <= MEMORY)
                &&& r ==> final(self).view() == q
                &&& !r ==> final(self).view() == old(self).view()
            }),
    {
        let ghost q = Programs { funcs: upsert(old(self).view().funcs, k, program_view(p)), ..old(self).view() };
        let ghost pv = program_view(p);
        match index_of_pair(&self.fkeys, k) {
            Some(i) => {
                proof {
                    lemma_first_key(old(self).view().funcs, k, i as int);
                }
                let previous = self.fprogs[i].copy();
                self.fprogs.set(i, p);
                assert(self.view().funcs =~= q.funcs);
                assert(self.view() == q);
                if self.used_within(MEMORY).is_none() {
                    self.fprogs.set(i, previous);
                    assert(self.view().funcs =~= old(self).view().funcs);
                    return false;
                }
                true
            },
            None => {
                proof {
                    lemma_first_key(old(self).view().funcs, k, -1);
                }
                self.fkeys.push(k);
                self.fprogs.push(p);
                assert(self.view().funcs =~= q.funcs);
                assert(self.view() == q);
                if self.used_within(MEMORY).is_none() {
                    self.fkeys.pop();
                    self.fprogs.pop();
                    assert(self.view().funcs =~= old(self).view().funcs);
                    return false;
                }
                true
            },
        }
    }

    /// DECPFK: `Key/Mod/Function/UDS/Direction;…`. A malformed definition
    /// ends processing; earlier ones stay. Returns false when locked.
    pub fn program_function_keys(&mut self, data: &[u8]) -> (r: bool)
        requires
            old(self).wf(),
        ensures
            final(self).wf(),
            final(self).is_locked() == old(self).is_locked(),
            r == !old(self).is_locked(),
            old(self).is_locked() ==> final(self).view() == old(self).view(),
            !old(self).is_locked() ==> final(self).view() == pfk_apply(old(self).view(), split(data@, 59)),
    {
        if self.locked {
            return false;
        }
        let defs = split_bytes(data, 59);
        let ghost target = pfk_apply(self.view(), views(defs@));
        proof {
            assert(views(defs@).subrange(0, defs@.len() as int) =~= views(defs@));
        }
        let mut n: usize = 0;
        while n < defs.len()
            invariant
                n <= defs@.len(),
                self.wf(),
                !self.locked,
                self.locked == old(self).locked,
                target == pfk_apply(self.view(), views(defs@).subrange(n as int, defs@.len() as int)),
            ensures
                self.wf(),
                self.locked == old(self).locked,
                target == self.view(),
            decreases defs@.len() - n,
        {
            if n + 1 == defs.len() {
                proof {
                    assert(views(defs@).subrange(n + 1, defs@.len() as int) =~= Seq::<Seq<u8>>::empty());
                }
            }
            let definition = defs[n].as_slice();
            let ghost rest = views(defs@).subrange(n as int, defs@.len() as int);
            proof {
                assert(rest[0] == definition@);
                assert(rest.drop_first() =~= views(defs@).subrange(n + 1, defs@.len() as int));
            }
            if definition.len() > 0 {
                match parse_pfk(definition) {
                    None => {
                        break;
                    },
                    Some((k, p)) => {
                        if !self.set_function(k, p) {
                            break;
                        }
                    },
                }
            }
            n = n + 1;
        }
        true
    }
}

/// The state with every definition of `station` removed.
pub open spec fn cleared(p: Programs, station: u8) -> Programs {
    Programs {
        funcs: without_station(p.funcs, station),
        alnums: without(p.alnums, station),
        copies: without(p.copies, station),
    }
}

/// One DECCKD pair `Ks/Kd` read as (source, destination).
pub open spec fn ckd_pair(d: Seq<u8>) -> Option<(u8, u8)> {
    let fields = split(d, 47);
    match (number(field(fields, 0)), if fields.len() > 1 { number(fields[1]) } else { None }) {
        (Some(src), Some(dst)) => if src <= 255 && dst <= 255 { Some((src as u8, dst as u8)) } else { None },
        _ => None,
    }
}

/// The state after DECCKD pairs: each destination first loses its
/// definitions, then takes the source's default unless they are the same
/// key; Break (116) is never a destination. A malformed pair, or a copy
/// that does not fit the memory, ends processing.
pub open spec fn ckd_apply(p: Programs, pairs: Seq<Seq<u8>>) -> Programs
    decreases pairs.len(),
{
    if pairs.len() == 0 {
        p
    } else if pairs[0].len() == 0 {
        ckd_apply(p, pairs.drop_first())
    } else {
        match ckd_pair(pairs[0]) {
            None => p,
            Some((src, dst)) => if dst == 116 {
                ckd_apply(p, pairs.drop_first())
            } else {
                let c = cleared(p, dst);
                if src == dst {
                    ckd_apply(c, pairs.drop_first())
                } else {
                    let q = Programs { copies: c.copies.push((dst, src)), ..c };
                    if used_spec(q) > MEMORY { c } else { ckd_apply(q, pairs.drop_first()) }
                }
            },
        }
    }
}

proof fn lemma_without_step<K, V>(s: Seq<(K, V)>, i: int, k: K)
    requires
        0 <= i < s.len(),
    ensures
        without(s.subrange(0, i + 1), k) == if s[i].0 != k {
            without(s.subrange(0, i), k).push(s[i])
        } else {
            without(s.subrange(0, i), k)
        },
        without(s.subrange(0, 0), k) == Seq::<(K, V)>::empty(),
        without(s.subrange(0, s.len() as int), k) == without(s, k),
{
    assert(s.subrange(0, i + 1).drop_last() =~= s.subrange(0, i));
    assert(s.subrange(0, s.len() as int) =~= s);
}

proof fn lemma_without_station_size(s: Seq<((u8, u8), ProgramView)>, st: u8)
    ensures
        funcs_size(without_station(s, st)) <= funcs_size(s),
    decreases s.len(),
{
    if s.len() > 0 {
        lemma_without_station_size(s.drop_last(), st);
        let r = without_station(s.drop_last(), st);
        if s.last().0.0 != st {
            assert(r.push(s.last()).drop_last() =~= r);
        }
    }
}

proof fn lemma_without_alnums_size(s: Seq<(u8, (Seq<Option<Seq<u8>>>, Option<ProgramView>))>, k: u8)
    ensures
        alnums_size(without(s, k)) <= alnums_size(s),
    decreases s.len(),
{
    if s.len() > 0 {
        lemma_without_alnums_size(s.drop_last(), k);
        let r = without(s.drop_last(), k);
        if s.last().0 != k {
            assert(r.push(s.last()).drop_last() =~= r);
        }
    }
}

proof fn lemma_without_len<K, V>(s: Seq<(K, V)>, k: K)
    ensures
        without(s, k).len() <= s.len(),
    decreases s.len(),
{
    if s.len() > 0 {
        lemma_without_len(s.drop_last(), k);
    }
}

/// Removing a station's definitions frees memory.
proof fn lemma_cleared_size(p: Programs, station: u8)
    ensures
        used_spec(cleared(p, station)) <= used_spec(p),
{
    lemma_without_station_size(p.funcs, station);
    lemma_without_alnums_size(p.alnums, station);
    lemma_without_len(p.copies, station);
}

proof fn lemma_without_station_step<V>(s: Seq<((u8, u8), V)>, i: int, st: u8)
    requires
        0 <= i < s.len(),
    ensures
        without_station(s.subrange(0, i + 1), st) == if s[i].0.0 != st {
            without_station(s.subrange(0, i), st).push(s[i])
        } else {
            without_station(s.subrange(0, i), st)
        },
{
    assert(s.subrange(0, i + 1).drop_last() =~= s.subrange(0, i));
}

impl KeyPrograms {
    /// Removes every non-default definition of `station`.
    fn clear_station(&mut self, station: u8)
        requires
            old(self).wf(),
        ensures
            final(self).wf(),
            final(self).view() == cleared(old(self).view(), station),
            final(self).locked == old(self).locked,
    {
        let ghost v = old(self).view();
        let mut fkeys: Vec<(u8, u8)> = Vec::new();
        let mut fprogs: Vec<Program> = Vec::new();
        let mut i: usize = 0;
        proof {
            assert(v.funcs.subrange(0, 0) =~= Seq::<((u8, u8), ProgramView)>::empty());
            assert(Seq::new(0, |j: int| (fkeys@[j], program_view(fprogs@[j]))) =~= without_station(v.funcs.subrange(0, 0), station));
        }
        while i < self.fkeys.len()
            invariant
                i <= self.fkeys@.len(),
                self.fkeys@.len() == self.fprogs@.len(),
                v == self.view(),
                fkeys@.len() == fprogs@.len(),
                Seq::new(fkeys@.len(), |j: int| (fkeys@[j], program_view(fprogs@[j]))) == without_station(v.funcs.subrange(0, i as int), station),
            decreases self.fkeys@.len() - i,
        {
            proof {
                lemma_without_station_step(v.funcs, i as int, station);
            }
            if self.fkeys[i].0 != station {
                let pc = self.fprogs[i].copy();
                fkeys.push(self.fkeys[i]);
                fprogs.push(pc);
            }
            i = i + 1;
            assert(Seq::new(fkeys@.len(), |j: int| (fkeys@[j], program_view(fprogs@[j]))) =~= without_station(v.funcs.subrange(0, i as int), station));
        }
        proof {
            assert(v.funcs.subrange(0, i as int) =~= v.funcs);
        }
        let mut akeys: Vec<u8> = Vec::new();
        let mut avals: Vec<Alphanumeric> = Vec::new();
        let mut j: usize = 0;
        proof {
            assert(v.alnums.subrange(0, 0) =~= Seq::<(u8, (Seq<Option<Seq<u8>>>, Option<ProgramView>))>::empty());
            assert(Seq::new(0, |k: int| (akeys@[k], alnum_view(avals@[k]))) =~= without(v.alnums.subrange(0, 0), station));
        }
        while j < self.akeys.len()
            invariant
                j <= self.akeys@.len(),
                self.akeys@.len() == self.avals@.len(),
                v == self.view(),
                akeys@.len() == avals@.len(),
                Seq::new(akeys@.len(), |k: int| (akeys@[k], alnum_view(avals@[k]))) == without(v.alnums.subrange(0, j as int), station),
            decreases self.akeys@.len() - j,
        {
            proof {
                lemma_without_step(v.alnums, j as int, station);
            }
            if self.akeys[j] != station {
                let ac = self.avals[j].copy();
                akeys.push(self.akeys[j]);
                avals.push(ac);
            }
            j = j + 1;
            assert(Seq::new(akeys@.len(), |k: int| (akeys@[k], alnum_view(avals@[k]))) =~= without(v.alnums.subrange(0, j as int), station));
        }
        proof {
            assert(v.alnums.subrange(0, j as int) =~= v.alnums);
        }
        let mut copies: Vec<(u8, u8)> = Vec::new();
        let mut c: usize = 0;
        proof {
            assert(v.copies.subrange(0, 0) =~= Seq::<(u8, u8)>::empty());
            assert(copies@ =~= without(v.copies.subrange(0, 0), station));
        }
        while c < self.copies.len()
            invariant
                c <= self.copies@.len(),
                v == self.view(),
                copies@ == without(v.copies.subrange(0, c as int), station),
            decreases self.copies@.len() - c,
        {
            proof {
                lemma_without_step(v.copies, c as int, station);
            }
            if self.copies[c].0 != station {
                copies.push(self.copies[c]);
            }
            c = c + 1;
        }
        proof {
            assert(v.copies.subrange(0, c as int) =~= v.copies);
        }
        self.fkeys = fkeys;
        self.fprogs = fprogs;
        self.akeys = akeys;
        self.avals = avals;
        self.copies = copies;
        assert(self.view().funcs =~= cleared(v, station).funcs);
        assert(self.view().alnums =~= cleared(v, station).alnums);
        proof {
            lemma_cleared_size(v, station);
        }
    }
}

impl Alphanumeric {
    /// A copy of the definition.
    pub fn copy(&self) -> (r: Alphanumeric)
        ensures
            alnum_view(r) == alnum_view(*self),
    {
        let mut codes: Vec<Option<Vec<u8>>> = Vec::new();
        let mut i: usize = 0;
        while i < self.codes.len()
            invariant
                i <= self.codes@.len(),
                codes@.len() == i,
                codes_view(codes@) == codes_view(self.codes@.subrange(0, i as int)),
            decreases self.codes@.len() - i,
        {
            let c = match &self.codes[i] {
                Some(v) => Some(copy_bytes(v)),
                None => None,
            };
            assert(opt_view(c) == opt_view(self.codes@[i as int]));
            let ghost before = codes@;
            codes.push(c);
            proof {
                assert forall|k: int| 0 <= k < i + 1 implies #[trigger] codes_view(codes@)[k] == codes_view(self.codes@.subrange(0, i + 1))[k] by {
                    if k < i {
                        assert(codes@[k] == before[k]);
                        assert(codes_view(before)[k] == codes_view(self.codes@.subrange(0, i as int))[k]);
                    }
                }
            }
            i = i + 1;
            assert(codes_view(codes@) =~= codes_view(self.codes@.subrange(0, i as int)));
        }
        assert(self.codes@.subrange(0, i as int) =~= self.codes@);
        let alt = match &self.alt {
            Some(p) => Some(p.copy()),
            None => None,
        };
        Alphanumeric { codes, alt }
    }
}

/// Reads one DECCKD pair as (source, destination).
fn parse_ckd(d: &[u8]) -> (r: Option<(u8, u8)>)
    ensures
        r == ckd_pair(d@),
{
    let fields = split_bytes(d, 47);
    let src = number_of(field_of(&fields, 0));
    let dst = if fields.len() > 1 {
        number_of(fields[1].as_slice())
    } else {
        None
    };
    match (src, dst) {
        (Some(a), Some(b)) => {
            if a <= 255 && b <= 255 {
                Some((a as u8, b as u8))
            } else {
                None
            }
        },
        _ => None,
    }
}

impl KeyPrograms {
    /// DECCKD: `Ks/Kd;…` copies key Ks's default to Kd; Ks = Kd restores Kd.
    pub fn copy_key_defaults(&mut self, data: &[u8]) -> (r: bool)
        requires
            old(self).wf(),
        ensures
            final(self).wf(),
            final(self).is_locked() == old(self).is_locked(),
            r == !old(self).is_locked(),
            old(self).is_locked() ==> final(self).view() == old(self).view(),
            !old(self).is_locked() ==> final(self).view() == ckd_apply(old(self).view(), split(data@, 59)),
    {
        if self.locked {
            return false;
        }
        let pairs = split_bytes(data, 59);
        let ghost target = ckd_apply(self.view(), views(pairs@));
        proof {
            assert(views(pairs@).subrange(0, pairs@.len() as int) =~= views(pairs@));
        }
        let mut n: usize = 0;
        while n < pairs.len()
            invariant_except_break
                target == ckd_apply(self.view(), views(pairs@).subrange(n as int, pairs@.len() as int)),
            invariant
                n <= pairs@.len(),
                self.wf(),
                !self.locked,
                self.locked == old(self).locked,
            ensures
                self.wf(),
                self.locked == old(self).locked,
                target == self.view(),
            decreases pairs@.len() - n,
        {
            if n + 1 == pairs.len() {
                proof {
                    assert(views(pairs@).subrange(n + 1, pairs@.len() as int) =~= Seq::<Seq<u8>>::empty());
                }
            }
            let pair = pairs[n].as_slice();
            let ghost rest = views(pairs@).subrange(n as int, pairs@.len() as int);
            proof {
                assert(rest[0] == pair@);
                assert(rest.drop_first() =~= views(pairs@).subrange(n + 1, pairs@.len() as int));
            }
            if pair.len() > 0 {
                match parse_ckd(pair) {
                    None => {
                        break;
                    },
                    Some((src, dst)) => {
                        if dst != 116 {
                            self.clear_station(dst);
                            if src != dst {
                                let ghost c = self.view();
                                self.copies.push((dst, src));
                                assert(self.view().copies =~= c.copies.push((dst, src)));
                                if self.used_within(MEMORY).is_none() {
                                    self.copies.pop();
                                    assert(self.view().copies =~= c.copies);
                                    assert(self.view() == c);
                                    break;
                                }
                            }
                        }
                    },
                }
            }
            n = n + 1;
        }
        true
    }
}

/// The pieces that are not empty, in order.
pub open spec fn nonempty(s: Seq<Seq<u8>>) -> Seq<Seq<u8>>
    decreases s.len(),
{
    if s.len() == 0 {
        s
    } else {
        let r = nonempty(s.drop_last());
        if s.last().len() > 0 { r.push(s.last()) } else { r }
    }
}

/// `f` with every comma read as a space.
pub open spec fn comma_as_space(f: Seq<u8>) -> Seq<u8> {
    f.map_values(|b: u8| if b == 44 { 32u8 } else { b })
}

/// Undelimited codes: a `.` or a hex pair per state; `None` when a single
/// byte other than `.` is left over.
pub open spec fn undelimited(t: Seq<u8>) -> Option<Seq<Seq<u8>>>
    decreases t.len(),
{
    if t.len() == 0 {
        Some(Seq::empty())
    } else if t[0] == 46 {
        match undelimited(t.subrange(1, t.len() as int)) {
            Some(r) => Some(seq![seq![46u8]] + r),
            None => None,
        }
    } else if t.len() >= 2 {
        match undelimited(t.subrange(2, t.len() as int)) {
            Some(r) => Some(seq![t.subrange(0, 2)] + r),
            None => None,
        }
    } else {
        None
    }
}

/// The items of a DECPAK code field: separated by spaces or commas when it
/// holds one, else undelimited.
pub open spec fn code_items(f: Seq<u8>) -> Option<Seq<Seq<u8>>> {
    if find(f, 32) >= 0 || find(f, 44) >= 0 {
        Some(nonempty(split(comma_as_space(f), 32)))
    } else {
        undelimited(f)
    }
}

/// `t` without its leading `-` bytes.
pub open spec fn strip_dashes(t: Seq<u8>) -> Seq<u8>
    decreases t.len(),
{
    if t.len() > 0 && t[0] == 45 { strip_dashes(t.drop_first()) } else { t }
}

/// One code item: `.` leaves the state undefined, else hex pairs; `None`
/// when malformed.
pub open spec fn code_item(item: Seq<u8>) -> Option<Option<Seq<u8>>> {
    let t = strip_dashes(item);
    if t == seq![46u8] {
        Some(None)
    } else {
        match unhex_spec(t) {
            Some(v) => Some(Some(v)),
            None => None,
        }
    }
}

/// Every item read, or `None` when one is malformed.
pub open spec fn codes_of(items: Seq<Seq<u8>>) -> Option<Seq<Option<Seq<u8>>>>
    decreases items.len(),
{
    if items.len() == 0 {
        Some(Seq::empty())
    } else {
        match (code_item(items[0]), codes_of(items.drop_first())) {
            (Some(c), Some(r)) => Some(seq![c] + r),
            _ => None,
        }
    }
}

/// Whether every byte is 7-bit.
pub open spec fn all_ascii(f: Seq<u8>) -> bool {
    forall|i: int| 0 <= i < f.len() ==> f[i] < 128
}

/// The seven modifier-state codes of a DECPAK field; states past the
/// items are undefined. `None` when malformed, when there are more than
/// seven items, or when the field holds a byte above 127.
pub open spec fn codes_field(f: Seq<u8>) -> Option<Seq<Option<Seq<u8>>>> {
    if !all_ascii(f) {
        None
    } else {
        match code_items(f) {
            None => None,
            Some(items) => if items.len() > 7 {
                None
            } else {
                match codes_of(items) {
                    None => None,
                    Some(c) => Some(c + Seq::new((7 - c.len()) as nat, |i: int| None::<Seq<u8>>)),
                }
            },
        }
    }
}

/// `f` with commas turned into spaces.
fn commas_to_spaces(f: &[u8]) -> (r: Vec<u8>)
    ensures
        r@ == comma_as_space(f@),
{
    let mut r: Vec<u8> = Vec::new();
    let mut i: usize = 0;
    while i < f.len()
        invariant
            i <= f.len(),
            r@ == comma_as_space(f@.subrange(0, i as int)),
        decreases f.len() - i,
    {
        r.push(if f[i] == 44 { 32u8 } else { f[i] });
        i = i + 1;
        assert(r@ =~= comma_as_space(f@.subrange(0, i as int)));
    }
    assert(f@.subrange(0, i as int) =~= f@);
    r
}

/// Keeps the pieces that are not empty.
fn keep_nonempty(pieces: Vec<Vec<u8>>) -> (r: Vec<Vec<u8>>)
    ensures
        views(r@) == nonempty(views(pieces@)),
{
    let mut r: Vec<Vec<u8>> = Vec::new();
    let mut i: usize = 0;
    while i < pieces.len()
        invariant
            i <= pieces@.len(),
            views(r@) == nonempty(views(pieces@).subrange(0, i as int)),
        decreases pieces@.len() - i,
    {
        let ghost before = r@;
        proof {
            assert(views(pieces@).subrange(0, i + 1).drop_last() =~= views(pieces@).subrange(0, i as int));
        }
        if pieces[i].len() > 0 {
            r.push(copy_bytes(&pieces[i]));
            proof {
                lemma_views_push(before, r@.last());
                assert(r@ == before.push(r@.last()));
            }
        }
        i = i + 1;
    }
    assert(views(pieces@).subrange(0, i as int) =~= views(pieces@));
    r
}

/// Splits an undelimited code field.
fn undelimited_items(t: &[u8]) -> (r: Option<Vec<Vec<u8>>>)
    ensures
        match undelimited(t@) {
            Some(it) => r matches Some(v) && views(v@) == it,
            None => r is None,
        },
{
    let mut out: Vec<Vec<u8>> = Vec::new();
    let mut pos: usize = 0;
    assert(t@.subrange(0, t@.len() as int) =~= t@);
    while pos < t.len()
        invariant
            pos <= t@.len(),
            undelimited(t@) == match undelimited(t@.subrange(pos as int, t@.len() as int)) {
                Some(r) => Some(views(out@) + r),
                None => None::<Seq<Seq<u8>>>,
            },
        decreases t@.len() - pos,
    {
        let ghost rest = t@.subrange(pos as int, t@.len() as int);
        let ghost before = out@;
        let item: Vec<u8>;
        if t[pos] == 46 {
            item = slice_to_vec(t, pos, pos + 1);
            proof {
                assert(rest.subrange(1, rest.len() as int) =~= t@.subrange(pos + 1, t@.len() as int));
                assert(item@ =~= seq![46u8]);
            }
            pos = pos + 1;
        } else if t.len() - pos >= 2 {
            item = slice_to_vec(t, pos, pos + 2);
            proof {
                assert(rest.subrange(2, rest.len() as int) =~= t@.subrange(pos + 2, t@.len() as int));
                assert(item@ =~= rest.subrange(0, 2));
            }
            pos = pos + 2;
        } else {
            return None;
        }
        out.push(item);
        proof {
            lemma_views_push(before, item);
            let next = undelimited(t@.subrange(pos as int, t@.len() as int));
            match next {
                Some(r) => {
                    assert(views(before).push(item@) + r =~= views(before) + (seq![item@] + r));
                },
                None => {},
            }
        }
    }
    assert(t@.subrange(pos as int, t@.len() as int) =~= Seq::<u8>::empty());
    assert(views(out@) + Seq::<Seq<u8>>::empty() =~= views(out@));
    Some(out)
}

/// The items of a code field.
fn code_items_of(f: &[u8]) -> (r: Option<Vec<Vec<u8>>>)
    ensures
        match code_items(f@) {
            Some(it) => r matches Some(v) && views(v@) == it,
            None => r is None,
        },
{
    if find_byte(f, 32).is_some() || find_byte(f, 44).is_some() {
        let spaced = commas_to_spaces(f);
        Some(keep_nonempty(split_bytes(spaced.as_slice(), 32)))
    } else {
        undelimited_items(f)
    }
}

/// Reads one code item.
fn code_item_of(item: &[u8]) -> (r: Option<Option<Vec<u8>>>)
    ensures
        match code_item(item@) {
            Some(c) => r matches Some(x) && opt_view(x) == c,
            None => r is None,
        },
{
    let mut i: usize = 0;
    assert(item@.subrange(0, item@.len() as int) =~= item@);
    while i < item.len() && item[i] == 45
        invariant
            i <= item@.len(),
            strip_dashes(item@) == strip_dashes(item@.subrange(i as int, item@.len() as int)),
        decreases item@.len() - i,
    {
        proof {
            let t = item@.subrange(i as int, item@.len() as int);
            assert(t.drop_first() =~= item@.subrange(i + 1, item@.len() as int));
        }
        i = i + 1;
    }
    let t = slice_to_vec(item, i, item.len());
    proof {
        let u = item@.subrange(i as int, item@.len() as int);
        assert(t@ =~= u);
        assert(strip_dashes(u) == u);
    }
    if t.len() == 1 && t[0] == 46 {
        assert(t@ =~= seq![46u8]);
        return Some(None);
    }
    assert(t@ != seq![46u8]);
    match unhex(t.as_slice()) {
        Some(v) => Some(Some(v)),
        None => None,
    }
}

/// Reads the seven modifier-state codes of a DECPAK field.
fn parse_codes(field: &[u8]) -> (r: Option<Vec<Option<Vec<u8>>>>)
    ensures
        match codes_field(field@) {
            Some(c) => r matches Some(v) && codes_view(v@) == c,
            None => r is None,
        },
{
    let mut k: usize = 0;
    while k < field.len()
        invariant
            k <= field@.len(),
            forall|j: int| 0 <= j < k ==> field@[j] < 128,
        decreases field@.len() - k,
    {
        if field[k] >= 128 {
            return None;
        }
        k = k + 1;
    }
    assert(all_ascii(field@));
    let items = match code_items_of(field) {
        Some(v) => v,
        None => {
            return None;
        },
    };
    if items.len() > 7 {
        return None;
    }
    let ghost it = views(items@);
    assert(code_items(field@) == Some(it));
    assert(it.len() <= 7);
    let mut out: Vec<Option<Vec<u8>>> = Vec::new();
    let mut i: usize = 0;
    assert(it.subrange(0, it.len() as int) =~= it);
    while i < items.len()
        invariant
            i <= items@.len(),
            items@.len() <= 7,
            it == views(items@),
            all_ascii(field@),
            code_items(field@) == Some(it),
            out@.len() == i,
            codes_of(it) == match codes_of(it.subrange(i as int, it.len() as int)) {
                Some(r) => Some(codes_view(out@) + r),
                None => None::<Seq<Option<Seq<u8>>>>,
            },
        decreases items@.len() - i,
    {
        let ghost rest = it.subrange(i as int, it.len() as int);
        let ghost before = out@;
        proof {
            assert(rest[0] == items@[i as int]@);
            assert(rest.drop_first() =~= it.subrange(i + 1, it.len() as int));
        }
        let c = match code_item_of(items[i].as_slice()) {
            Some(c) => c,
            None => {
                assert(codes_of(rest) is None);
                assert(codes_of(it) is None);
                assert(codes_field(field@) is None);
                return None;
            },
        };
        out.push(c);
        i = i + 1;
        proof {
            assert(codes_view(out@) =~= codes_view(before).push(opt_view(c)));
            match codes_of(it.subrange(i as int, it.len() as int)) {
                Some(r) => {
                    assert(codes_view(before).push(opt_view(c)) + r =~= codes_view(before) + (seq![opt_view(c)] + r));
                },
                None => {},
            }
        }
    }
    proof {
        assert(it.subrange(i as int, it.len() as int) =~= Seq::<Seq<u8>>::empty());
        assert(codes_view(out@) + Seq::<Option<Seq<u8>>>::empty() =~= codes_view(out@));
    }
    let ghost c = codes_view(out@);
    while out.len() < 7
        invariant
            out@.len() <= 7,
            c.len() <= out@.len(),
            codes_view(out@) == c + Seq::new((out@.len() - c.len()) as nat, |j: int| None::<Seq<u8>>),
        decreases 7 - out@.len(),
    {
        let ghost before = out@;
        out.push(None);
        assert(codes_view(out@) =~= codes_view(before).push(None));
        assert(codes_view(out@) =~= c + Seq::new((out@.len() - c.len()) as nat, |j: int| None::<Seq<u8>>));
    }
    assert(all_ascii(field@));
    assert(code_items(field@) == Some(it));
    Some(out)
}

/// What an alphanumeric definition holds: the seven codes and the Alt program.
pub type AlnumView = (Seq<Option<Seq<u8>>>, Option<ProgramView>);

/// The DECPAK direction: 1 local, 2 remote, anything else normal.
pub open spec fn pak_direction(n: Option<nat>) -> Direction {
    match n {
        Some(v) => if v == 1 {
            Direction::Local
        } else if v == 2 {
            Direction::Remote
        } else {
            Direction::Normal
        },
        None => Direction::Normal,
    }
}

/// One DECPAK definition `Key/HexCodes/Function/UDS/Direction` read; `None`
/// when it is malformed or names no typewriter key. The Alt program is
/// there when the definition has more than two fields.
pub open spec fn pak_definition(d: Seq<u8>) -> Option<(u8, AlnumView)> {
    let fields = split(d, 47);
    match number(field(fields, 0)) {
        None => None,
        Some(st) => if st > 255 || !is_alphanumeric_spec(st as u8) {
            None
        } else {
            match codes_field(field(fields, 1)) {
                None => None,
                Some(codes) => if fields.len() > 2 {
                    match (number(field(fields, 2)), unhex_spec(field(fields, 3))) {
                        (Some(fnc), Some(uds)) => Some(
                            (st as u8, (codes, Some((fnc as u16, uds, pak_direction(number(field(fields, 4))))))),
                        ),
                        _ => None,
                    }
                } else {
                    Some((st as u8, (codes, None)))
                },
            }
        },
    }
}

/// The state after DECPAK definitions: empty ones are skipped; a malformed
/// one, or one that does not fit the memory, ends processing and earlier
/// ones stay.
pub open spec fn pak_apply(p: Programs, defs: Seq<Seq<u8>>) -> Programs
    decreases defs.len(),
{
    if defs.len() == 0 {
        p
    } else if defs[0].len() == 0 {
        pak_apply(p, defs.drop_first())
    } else {
        match pak_definition(defs[0]) {
            None => p,
            Some((k, a)) => {
                let q = Programs { alnums: upsert(p.alnums, k, a), ..p };
                if used_spec(q) > MEMORY { p } else { pak_apply(q, defs.drop_first()) }
            },
        }
    }
}

/// Reads one DECPAK definition.
fn parse_pak(d: &[u8]) -> (r: Option<(u8, Alphanumeric)>)
    ensures
        match pak_definition(d@) {
            Some((k, a)) => r matches Some((k2, b)) && k2 == k && alnum_view(b) == a,
            None => r is None,
        },
{
    let fields = split_bytes(d, 47);
    let st = match number_of(field_of(&fields, 0)) {
        Some(v) => v,
        None => {
            return None;
        },
    };
    if st > 255 || !is_alphanumeric(st as u8) {
        return None;
    }
    let station = st as u8;
    let codes = match parse_codes(field_of(&fields, 1)) {
        Some(c) => c,
        None => {
            return None;
        },
    };
    let alt = if fields.len() > 2 {
        let fnc = number_of(field_of(&fields, 2));
        let uds = unhex(field_of(&fields, 3));
        match (fnc, uds) {
            (Some(function), Some(uds)) => {
                let direction = match number_of(field_of(&fields, 4)) {
                    Some(1) => Direction::Local,
                    Some(2) => Direction::Remote,
                    _ => Direction::Normal,
                };
                Some(Program { function, uds, direction })
            },
            _ => {
                return None;
            },
        }
    } else {
        None
    };
    Some((station, Alphanumeric { codes, alt }))
}

impl KeyPrograms {
    /// Sets the definition of alphanumeric key `k` unless the memory would
    /// overflow; returns whether it did.
    fn set_alphanumeric(&mut self, k: u8, a: Alphanumeric) -> (r: bool)
        requires
            old(self).wf(),
        ensures
            final(self).wf(),
            final(self).locked == old(self).locked,
            ({
                let q = Programs { alnums: upsert(old(self).view().alnums, k, alnum_view(a)), ..old(self).view() };
                &&& r == (used_spec(q) <= MEMORY)
                &&& r ==> final(self).view() == q
                &&& !r ==> final(self).view() == old(self).view()
            }),
    {
        let ghost q = Programs { alnums: upsert(old(self).view().alnums, k, alnum_view(a)), ..old(self).view() };
        match index_of_byte(&self.akeys, k) {
            Some(i) => {
                proof {
                    lemma_first_key(old(self).view().alnums, k, i as int);
                }
                let previous = self.avals[i].copy();
                self.avals.set(i, a);
                assert(self.view().alnums =~= q.alnums);
                assert(self.view() == q);
                if self.used_within(MEMORY).is_none() {
                    self.avals.set(i, previous);
                    assert(self.view().alnums =~= old(self).view().alnums);
                    return false;
                }
                true
            },
            None => {
                proof {
                    lemma_first_key(old(self).view().alnums, k, -1);
                }
                self.akeys.push(k);
                self.avals.push(a);
                assert(self.view().alnums =~= q.alnums);
                assert(self.view() == q);
                if self.used_within(MEMORY).is_none() {
                    self.akeys.pop();
                    self.avals.pop();
                    assert(self.view().alnums =~= old(self).view().alnums);
                    return false;
                }
                true
            },
        }
    }

    /// DECPAK: `Key/HexCodes/Function/UDS/Direction;…`. HexCodes gives the
    /// codes for the seven modifier states, `.` for a state left undefined;
    /// the function, sequence and direction apply to Alt with the key.
    pub fn program_alphanumeric_keys(&mut self, data: &[u8]) -> (r: bool)
        requires
            old(self).wf(),
        ensures
            final(self).wf(),
            final(self).is_locked() == old(self).is_locked(),
            r == !old(self).is_locked(),
            old(self).is_locked() ==> final(self).view() == old(self).view(),
            !old(self).is_locked() ==> final(self).view() == pak_apply(old(self).view(), split(data@, 59)),
    {
        if self.locked {
            return false;
        }
        let defs = split_bytes(data, 59);
        let ghost target = pak_apply(self.view(), views(defs@));
        proof {
            assert(views(defs@).subrange(0, defs@.len() as int) =~= views(defs@));
        }
        let mut n: usize = 0;
        while n < defs.len()
            invariant_except_break
                target == pak_apply(self.view(), views(defs@).subrange(n as int, defs@.len() as int)),
            invariant
                n <= defs@.len(),
                self.wf(),
                !self.locked,
                self.locked == old(self).locked,
            ensures
                self.wf(),
                self.locked == old(self).locked,
                target == self.view(),
            decreases defs@.len() - n,
        {
            if n + 1 == defs.len() {
                proof {
                    assert(views(defs@).subrange(n + 1, defs@.len() as int) =~= Seq::<Seq<u8>>::empty());
                }
            }
            let definition = defs[n].as_slice();
            let ghost rest = views(defs@).subrange(n as int, defs@.len() as int);
            proof {
                assert(rest[0] == definition@);
                assert(rest.drop_first() =~= views(defs@).subrange(n + 1, defs@.len() as int));
            }
            if definition.len() > 0 {
                match parse_pak(definition) {
                    None => {
                        break;
                    },
                    Some((k, a)) => {
                        if !self.set_alphanumeric(k, a) {
                            break;
                        }
                    },
                }
            }
            n = n + 1;
        }
        true
    }
}

/// The DECRPFK text of a function key: `Key/Mod/Function/UDS/Direction`,
/// the sequence in upper-case hex; an unprogrammed key reports an empty
/// function, its default sequence and direction 0. Modifier 0 reads as 1.
pub open spec fn rpfk_text(p: Programs, station: u8, modifier: u8, default: Seq<u8>) -> Seq<char> {
    let m: u8 = if modifier < 1 { 1 } else { modifier };
    let head = dec(station as nat) + seq!['/'] + dec(m as nat) + seq!['/'];
    match lookup(p.funcs, (station, m)) {
        Some(pv) => head + dec(pv.0 as nat) + seq!['/'] + hex_text(pv.1, true) + seq!['/'] + dec(
            direction_code(pv.2) as nat,
        ),
        None => head + seq!['/'] + hex_text(default, true) + seq!['/', '0'],
    }
}

/// One code as DECRPAK shows it: hex, or `.` when undefined.
pub open spec fn code_text(c: Option<Seq<u8>>) -> Seq<char> {
    match c {
        Some(v) => hex_text(v, true),
        None => seq!['.'],
    }
}

/// The codes joined by spaces.
pub open spec fn codes_text(c: Seq<Option<Seq<u8>>>) -> Seq<char>
    decreases c.len(),
{
    if c.len() == 0 {
        Seq::empty()
    } else if c.len() == 1 {
        code_text(c[0])
    } else {
        codes_text(c.drop_last()) + seq![' '] + code_text(c.last())
    }
}

/// The DECRPAK text of an alphanumeric key: `Key/Codes` and, when Alt is
/// programmed, `/Function/UDS/Direction`; an unprogrammed key reports seven
/// undefined states.
pub open spec fn rpak_text(p: Programs, station: u8) -> Seq<char> {
    match lookup(p.alnums, station) {
        Some(a) => dec(station as nat) + seq!['/'] + codes_text(a.0) + match a.1 {
            Some(pv) => seq!['/'] + dec(pv.0 as nat) + seq!['/'] + hex_text(pv.1, true) + seq!['/'] + dec(
                direction_code(pv.2) as nat,
            ),
            None => Seq::empty(),
        },
        None => dec(station as nat) + seq!['/', '.', ' ', '.', ' ', '.', ' ', '.', ' ', '.', ' ', '.', ' ', '.'],
    }
}

/// Appends the codes joined by spaces.
fn push_codes(out: &mut Vec<char>, codes: &Vec<Option<Vec<u8>>>)
    ensures
        final(out)@ == old(out)@ + codes_text(codes_view(codes@)),
{
    let mut i: usize = 0;
    while i < codes.len()
        invariant
            i <= codes@.len(),
            out@ == old(out)@ + codes_text(codes_view(codes@.subrange(0, i as int))),
        decreases codes@.len() - i,
    {
        let ghost before = out@;
        let ghost c = codes_view(codes@.subrange(0, i + 1));
        proof {
            assert(c.drop_last() =~= codes_view(codes@.subrange(0, i as int)));
            assert(c.last() == opt_view(codes@[i as int]));
        }
        if i > 0 {
            out.push(' ');
        }
        match &codes[i] {
            Some(v) => push_hex(out, v.as_slice(), true),
            None => out.push('.'),
        }
        i = i + 1;
        proof {
            if i == 1 {
                assert(codes_view(codes@.subrange(0, 0)) =~= Seq::<Option<Seq<u8>>>::empty());
                assert(out@ =~= old(out)@ + codes_text(c));
            } else {
                assert(out@ =~= old(out)@ + codes_text(c));
            }
        }
    }
    assert(codes@.subrange(0, i as int) =~= codes@);
}

impl KeyPrograms {
    /// DECRPFK data for a function key with a modifier. `default` is the
    /// sequence the key sends when not programmed.
    pub fn report_function(&self, station: u8, modifier: u8, default: &[u8]) -> (r: String)
        requires
            self.wf(),
        ensures
            r@ == rpfk_text(self.view(), station, modifier, default@),
    {
        let m: u8 = if modifier < 1 { 1 } else { modifier };
        let mut out: Vec<char> = Vec::new();
        push_dec(&mut out, station as u64);
        out.push('/');
        push_dec(&mut out, m as u64);
        out.push('/');
        let ghost head = out@;
        match index_of_pair(&self.fkeys, (station, m)) {
            Some(i) => {
                proof {
                    lemma_first_key(self.view().funcs, (station, m), i as int);
                }
                let p = &self.fprogs[i];
                push_dec(&mut out, p.function as u64);
                out.push('/');
                push_hex(&mut out, p.uds.as_slice(), true);
                out.push('/');
                push_dec(&mut out, p.direction.code() as u64);
            },
            None => {
                proof {
                    lemma_first_key(self.view().funcs, (station, m), -1);
                }
                out.push('/');
                push_hex(&mut out, default, true);
                out.push('/');
                out.push('0');
                assert(out@ =~= head + seq!['/'] + hex_text(default@, true) + seq!['/', '0']);
            },
        }
        let r = string_from(&out);
        assert(r@ =~= rpfk_text(self.view(), station, modifier, default@));
        r
    }

    /// DECRPAK data for an alphanumeric key.
    pub fn report_alphanumeric(&self, station: u8) -> (r: String)
        requires
            self.wf(),
        ensures
            r@ == rpak_text(self.view(), station),
    {
        let mut out: Vec<char> = Vec::new();
        push_dec(&mut out, station as u64);
        out.push('/');
        match index_of_byte(&self.akeys, station) {
            Some(i) => {
                proof {
                    lemma_first_key(self.view().alnums, station, i as int);
                }
                let a = &self.avals[i];
                push_codes(&mut out, &a.codes);
                let ghost mid = out@;
                match &a.alt {
                    Some(p) => {
                        out.push('/');
                        push_dec(&mut out, p.function as u64);
                        out.push('/');
                        push_hex(&mut out, p.uds.as_slice(), true);
                        out.push('/');
                        push_dec(&mut out, p.direction.code() as u64);
                    },
                    None => {
                        assert(mid + Seq::<char>::empty() =~= mid);
                    },
                }
            },
            None => {
                proof {
                    lemma_first_key(self.view().alnums, station, -1);
                }
                out.push('.');
                out.push(' ');
                out.push('.');
                out.push(' ');
                out.push('.');
                out.push(' ');
                out.push('.');
                out.push(' ');
                out.push('.');
                out.push(' ');
                out.push('.');
                out.push(' ');
                out.push('.');
            },
        }
        let r = string_from(&out);
        assert(r@ =~= rpak_text(self.view(), station));
        r
    }
}

impl Default for KeyPrograms {
    /// Nothing programmed, unlocked.
    fn default() -> (r: KeyPrograms)
        ensures
            r.wf(),
            r.view() == no_programs(),
            !r.is_locked(),
    {
        KeyPrograms::new()
    }
}

} // verus!
