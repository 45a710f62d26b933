//! Terminal modes set by SM/RM (ANSI) and DECSET/DECRST (DEC private).

use vstd::prelude::*;

verus! {

/// Terminal modes set by SM/RM (ANSI) and DECSET/DECRST (DEC private).
#[derive(Debug, Clone, Copy, PartialEq, Eq, Structural)]
pub struct Modes {
    /// KAM (2): keyboard locked.
    pub keyboard_locked: bool,
    /// IRM (4): insert rather than replace.
    pub insert: bool,
    /// SRM (12): set = no local echo (DEC default).
    pub send_receive: bool,
    /// LNM (20): LF/VT/FF also return; Return sends CR LF.
    pub new_line: bool,
    /// DECCKM (1): cursor keys send application sequences.
    pub cursor_keys_application: bool,
    /// DECANM (2): ANSI mode; reset = VT52 mode.
    pub ansi: bool,
    /// DECCOLM (3): 132 columns.
    pub columns_132: bool,
    /// DECSCLM (4): smooth scroll.
    pub smooth_scroll: bool,
    /// DECSCNM (5): reverse (light background) screen.
    pub reverse_screen: bool,
    /// DECOM (6): cursor addressing relative to the margins.
    pub origin: bool,
    /// DECAWM (7): autowrap.
    pub autowrap: bool,
    /// DECARM (8): auto-repeat.
    pub auto_repeat: bool,
    /// DECPFF (18): form feed after print screen.
    pub print_form_feed: bool,
    /// DECPEX (19): print screen prints the full page rather than the scroll region.
    pub print_extent_full: bool,
    /// DECTCEM (25): cursor visible.
    pub cursor_visible: bool,
    /// DECKPAM / DECKPNM, DECNKM (66): keypad sends application sequences.
    pub keypad_application: bool,
    /// DECBKM (67): set = backarrow key sends BS; reset (DEC default) = DEL.
    pub backarrow_sends_bs: bool,
    /// DECNRCM (42): 7-bit national replacement character sets.
    pub national: bool,
    /// DECLRMM / DECVSSM (69): left and right margins can be set.
    pub lr_margins: bool,
    /// DECVCCM (61): the user window pans to follow the cursor.
    pub vertical_coupling: bool,
    /// DECPCCM (64): moving to another page displays that page.
    pub page_coupling: bool,
    /// DECKBUM (68): data processing keys rather than typewriter keys.
    pub data_processing_keys: bool,
}

/// The `i`-th mode in declaration order, the order of the report bits.
pub open spec fn mode_flag(m: Modes, i: int) -> bool {
    if i == 0 {
        m.keyboard_locked
    } else if i == 1 {
        m.insert
    } else if i == 2 {
        m.send_receive
    } else if i == 3 {
        m.new_line
    } else if i == 4 {
        m.cursor_keys_application
    } else if i == 5 {
        m.ansi
    } else if i == 6 {
        m.columns_132
    } else if i == 7 {
        m.smooth_scroll
    } else if i == 8 {
        m.reverse_screen
    } else if i == 9 {
        m.origin
    } else if i == 10 {
        m.autowrap
    } else if i == 11 {
        m.auto_repeat
    } else if i == 12 {
        m.print_form_feed
    } else if i == 13 {
        m.print_extent_full
    } else if i == 14 {
        m.cursor_visible
    } else if i == 15 {
        m.keypad_application
    } else if i == 16 {
        m.backarrow_sends_bs
    } else if i == 17 {
        m.national
    } else if i == 18 {
        m.lr_margins
    } else if i == 19 {
        m.vertical_coupling
    } else if i == 20 {
        m.page_coupling
    } else if i == 21 {
        m.data_processing_keys
    } else {
        false
    }
}

/// Whether bit `i` of `bits` is set.
pub open spec fn has_bit(bits: u32, i: u32) -> bool {
    bits & (1u32 << i) != 0
}

proof fn lemma_add_bit(r: u32, i: u32, j: u32, on: bool) by (bit_vector)
    requires
        i < 22,
        j < 32,
        r < (1u32 << i),
    ensures
        ((r | (if on { 1u32 << i } else { 0u32 })) & (1u32 << j) != 0) == (if j == i { on } else { r & (1u32 << j) != 0 }),
        (r | (if on { 1u32 << i } else { 0u32 })) < (1u32 << ((i + 1) as u32)),
{
}

proof fn lemma_no_bits() by (bit_vector)
    ensures
        0u32 < (1u32 << 0u32),
{
}

/// The modes a report bit set encodes: the `i`-th mode from bit `i`.
pub open spec fn modes_from_bits(bits: u32) -> Modes {
    Modes {
        keyboard_locked: has_bit(bits, 0),
        insert: has_bit(bits, 1),
        send_receive: has_bit(bits, 2),
        new_line: has_bit(bits, 3),
        cursor_keys_application: has_bit(bits, 4),
        ansi: has_bit(bits, 5),
        columns_132: has_bit(bits, 6),
        smooth_scroll: has_bit(bits, 7),
        reverse_screen: has_bit(bits, 8),
        origin: has_bit(bits, 9),
        autowrap: has_bit(bits, 10),
        auto_repeat: has_bit(bits, 11),
        print_form_feed: has_bit(bits, 12),
        print_extent_full: has_bit(bits, 13),
        cursor_visible: has_bit(bits, 14),
        keypad_application: has_bit(bits, 15),
        backarrow_sends_bs: has_bit(bits, 16),
        national: has_bit(bits, 17),
        lr_margins: has_bit(bits, 18),
        vertical_coupling: has_bit(bits, 19),
        page_coupling: has_bit(bits, 20),
        data_processing_keys: has_bit(bits, 21),
    }
}

/// Modes read back from their report bits are the modes reported.
pub proof fn lemma_bits_round_trip(m: Modes, bits: u32)
    requires
        forall|j: u32| j < 22 ==> has_bit(bits, j) == #[trigger] mode_flag(m, j as int),
    ensures
        modes_from_bits(bits) == m,
{
    assert(has_bit(bits, 0u32) == mode_flag(m, 0));
    assert(has_bit(bits, 1u32) == mode_flag(m, 1));
    assert(has_bit(bits, 2u32) == mode_flag(m, 2));
    assert(has_bit(bits, 3u32) == mode_flag(m, 3));
    assert(has_bit(bits, 4u32) == mode_flag(m, 4));
    assert(has_bit(bits, 5u32) == mode_flag(m, 5));
    assert(has_bit(bits, 6u32) == mode_flag(m, 6));
    assert(has_bit(bits, 7u32) == mode_flag(m, 7));
    assert(has_bit(bits, 8u32) == mode_flag(m, 8));
    assert(has_bit(bits, 9u32) == mode_flag(m, 9));
    assert(has_bit(bits, 10u32) == mode_flag(m, 10));
    assert(has_bit(bits, 11u32) == mode_flag(m, 11));
    assert(has_bit(bits, 12u32) == mode_flag(m, 12));
    assert(has_bit(bits, 13u32) == mode_flag(m, 13));
    assert(has_bit(bits, 14u32) == mode_flag(m, 14));
    assert(has_bit(bits, 15u32) == mode_flag(m, 15));
    assert(has_bit(bits, 16u32) == mode_flag(m, 16));
    assert(has_bit(bits, 17u32) == mode_flag(m, 17));
    assert(has_bit(bits, 18u32) == mode_flag(m, 18));
    assert(has_bit(bits, 19u32) == mode_flag(m, 19));
    assert(has_bit(bits, 20u32) == mode_flag(m, 20));
    assert(has_bit(bits, 21u32) == mode_flag(m, 21));
}

/// The modes at power-up. `autowrap` and `new_line` come from Set-Up.
pub open spec fn power_up_modes(autowrap: bool, new_line: bool, national: bool) -> Modes {
    Modes {
        keyboard_locked: false,
        insert: false,
        send_receive: true,
        new_line,
        cursor_keys_application: false,
        ansi: true,
        columns_132: false,
        smooth_scroll: false,
        reverse_screen: false,
        origin: false,
        autowrap,
        auto_repeat: true,
        print_form_feed: false,
        print_extent_full: false,
        cursor_visible: true,
        keypad_application: false,
        backarrow_sends_bs: false,
        national,
        lr_margins: false,
        vertical_coupling: true,
        page_coupling: true,
        data_processing_keys: false,
    }
}

impl Modes {
    /// The `i`-th mode in declaration order.
    fn flag_at(&self, i: u32) -> (r: bool)
        requires
            i < 22,
        ensures
            r == mode_flag(*self, i as int),
    {
        match i {
            0 => self.keyboard_locked,
            1 => self.insert,
            2 => self.send_receive,
            3 => self.new_line,
            4 => self.cursor_keys_application,
            5 => self.ansi,
            6 => self.columns_132,
            7 => self.smooth_scroll,
            8 => self.reverse_screen,
            9 => self.origin,
            10 => self.autowrap,
            11 => self.auto_repeat,
            12 => self.print_form_feed,
            13 => self.print_extent_full,
            14 => self.cursor_visible,
            15 => self.keypad_application,
            16 => self.backarrow_sends_bs,
            17 => self.national,
            18 => self.lr_margins,
            19 => self.vertical_coupling,
            20 => self.page_coupling,
            _ => self.data_processing_keys,
        }
    }

    /// All modes as a bit set, for terminal state reports: bit `i` is the
    /// `i`-th mode in declaration order.
    pub fn to_bits(&self) -> (r: u32)
        ensures
            r < (1u32 << 22),
            forall|j: u32| j < 22 ==> has_bit(r, j) == #[trigger] mode_flag(*self, j as int),
    {
        let mut r: u32 = 0;
        let mut i: u32 = 0;
        proof {
            lemma_no_bits();
        }
        while i < 22
            invariant
                i <= 22,
                r < (1u32 << i),
                forall|j: u32| j < i ==> has_bit(r, j) == #[trigger] mode_flag(*self, j as int),
            decreases 22 - i,
        {
            let on = self.flag_at(i);
            let b: u32 = if on { 1u32 << i } else { 0u32 };
            proof {
                assert forall|j: u32| j < i + 1 implies has_bit(r | b, j) == #[trigger] mode_flag(*self, j as int) by {
                    lemma_add_bit(r, i, j, on);
                }
                lemma_add_bit(r, i, 0, on);
            }
            r = r | b;
            i = i + 1;
        }
        r
    }

    /// Restores modes from [`Modes::to_bits`]. Every mode is read from
    /// `bits`, so nothing of `base` remains.
    pub fn from_bits(bits: u32, base: Modes) -> (r: Modes)
        ensures
            r == modes_from_bits(bits),
    {
        let mut m = base;
        m.keyboard_locked = bits & (1u32 << 0u32) != 0;
        m.insert = bits & (1u32 << 1u32) != 0;
        m.send_receive = bits & (1u32 << 2u32) != 0;
        m.new_line = bits & (1u32 << 3u32) != 0;
        m.cursor_keys_application = bits & (1u32 << 4u32) != 0;
        m.ansi = bits & (1u32 << 5u32) != 0;
        m.columns_132 = bits & (1u32 << 6u32) != 0;
        m.smooth_scroll = bits & (1u32 << 7u32) != 0;
        m.reverse_screen = bits & (1u32 << 8u32) != 0;
        m.origin = bits & (1u32 << 9u32) != 0;
        m.autowrap = bits & (1u32 << 10u32) != 0;
        m.auto_repeat = bits & (1u32 << 11u32) != 0;
        m.print_form_feed = bits & (1u32 << 12u32) != 0;
        m.print_extent_full = bits & (1u32 << 13u32) != 0;
        m.cursor_visible = bits & (1u32 << 14u32) != 0;
        m.keypad_application = bits & (1u32 << 15u32) != 0;
        m.backarrow_sends_bs = bits & (1u32 << 16u32) != 0;
        m.national = bits & (1u32 << 17u32) != 0;
        m.lr_margins = bits & (1u32 << 18u32) != 0;
        m.vertical_coupling = bits & (1u32 << 19u32) != 0;
        m.page_coupling = bits & (1u32 << 20u32) != 0;
        m.data_processing_keys = bits & (1u32 << 21u32) != 0;
        m
    }

    /// Power-up modes. `autowrap` and `new_line` come from Set-Up.
    pub fn power_up(autowrap: bool, new_line: bool, national: bool) -> (r: Modes)
        ensures
            r == power_up_modes(autowrap, new_line, national),
    {
        Modes {
            keyboard_locked: false,
            insert: false,
            send_receive: true,
            new_line,
            cursor_keys_application: false,
            ansi: true,
            columns_132: false,
            smooth_scroll: false,
            reverse_screen: false,
            origin: false,
            autowrap,
            auto_repeat: true,
            print_form_feed: false,
            print_extent_full: false,
            cursor_visible: true,
            keypad_application: false,
            backarrow_sends_bs: false,
            national,
            lr_margins: false,
            vertical_coupling: true,
            page_coupling: true,
            data_processing_keys: false,
        }
    }
}



} // verus!
