use vstd::prelude::*;

verus! {

/// Bit that stands for interrupt `i` in the pending register: interrupts 0
/// to 2 each own one of the three low bits, any other number owns none.
pub open spec fn int_bit(i: u8) -> u8 {
    if i < 3 {
        (1u8 << i) as u8
    } else {
        0
    }
}

/// Interrupt `i` is pending in the register value `flags`.
pub open spec fn is_pending(flags: u8, i: u8) -> bool {
    i < 3 && flags & int_bit(i) != 0
}

/// Latch of pending interrupts.
#[derive(Debug, Clone)]
pub struct Int {
    if_: u8,
}

impl View for Int {
    type V = u8;

    /// The pending register: bit `i` is set while interrupt `i` is pending.
    closed spec fn view(&self) -> u8 {
        self.if_
    }
}

impl Int {
    pub const RESET: u8 = 0;
    pub const HALF_SCREEN: u8 = 1;
    pub const VBLANK: u8 = 2;

    pub fn new() -> (latch: Self)
        ensures
            latch@ == 0,
    {
        Self { if_: 0 }
    }

    fn mask(i: u8) -> (m: u8)
        requires
            i < 8,
        ensures
            m == int_bit(i),
    {
        let m = (1u8 << i) & 0x07;
        assert(m == int_bit(i)) by (bit_vector)
            requires
                i < 8,
                m == (1u8 << i) & 0x07,
                int_bit(i) == if i < 3 { (1u8 << i) as u8 } else { 0 },
        ;
        m
    }

    fn reset_int(&mut self, i: u8)
        requires
            i < 8,
        ensures
            final(self)@ == old(self)@ & !int_bit(i),
    {
        self.if_ &= !Self::mask(i);
    }

    /// Are there any pending interrupts.
    pub fn has_pending(&mut self) -> (r: bool)
        ensures
            final(self)@ == old(self)@,
            r == (old(self)@ & 0x07 != 0),
    {
        (self.if_ & 0x07) != 0
    }

    /// Raises interrupt `i`.
    pub fn set_int(&mut self, i: u8)
        requires
            i < 8,
        ensures
            final(self)@ == old(self)@ | int_bit(i),
    {
        self.if_ |= Self::mask(i);
    }

    /// Takes interrupt `i`: tells whether it was pending, and clears it.
    pub fn take_int(&mut self, i: u8) -> (r: bool)
        requires
            i < 8,
        ensures
            r == is_pending(old(self)@, i),
            final(self)@ == old(self)@ & !int_bit(i),
    {
        let m = Self::mask(i);
        let flags = self.if_;
        let res = (flags & m) != 0;
        assert(m == 0 ==> flags & m == 0) by (bit_vector);
        self.reset_int(i);
        res
    }
}

/// An interrupt that was raised is pending until it is taken; taking it
/// clears it and leaves every other interrupt as it was.
pub proof fn lemma_set_then_take(flags: u8, i: u8, j: u8)
    requires
        i < 3,
        j < 8,
    ensures
        is_pending(flags | int_bit(i), i),
        !is_pending((flags | int_bit(i)) & !int_bit(i), i),
        j != i ==> (is_pending((flags | int_bit(i)) & !int_bit(i), j) == is_pending(flags, j)),
{
    let bi = int_bit(i);
    let bj = int_bit(j);
    assert({
        &&& (flags | bi) & bi != 0
        &&& ((flags | bi) & !bi) & bi == 0
        &&& j != i && j < 3 ==> ((((flags | bi) & !bi) & bj != 0) == (flags & bj != 0))
    }) by (bit_vector)
        requires
            i < 3,
            j < 8,
            bi == (1u8 << i) as u8,
            j < 3 ==> bj == (1u8 << j) as u8,
    ;
}

/// Only the three interrupt bits can ever be pending.
pub proof fn lemma_pending_bits(flags: u8, i: u8)
    requires
        flags & !0x07u8 == 0,
        i < 8,
    ensures
        (flags | int_bit(i)) & !0x07u8 == 0,
        (flags & !int_bit(i)) & !0x07u8 == 0,
        (flags & 0x07 != 0) <==> (is_pending(flags, 0) || is_pending(flags, 1) || is_pending(flags, 2)),
{
    let b = int_bit(i);
    let (b0, b1, b2) = (int_bit(0), int_bit(1), int_bit(2));
    assert({
        &&& (flags | b) & !0x07u8 == 0
        &&& (flags & !b) & !0x07u8 == 0
        &&& (flags & 0x07 != 0) <==> (flags & b0 != 0 || flags & b1 != 0 || flags & b2 != 0)
    }) by (bit_vector)
        requires
            flags & !0x07u8 == 0,
            i < 8,
            b == if i < 3 { (1u8 << i) as u8 } else { 0 },
            b0 == (1u8 << 0u8) as u8,
            b1 == (1u8 << 1u8) as u8,
            b2 == (1u8 << 2u8) as u8,
    ;
}

/// Interrupt `i` (0, 1 or 2) is pending exactly when bit `i` of the pending
/// register is set.
pub proof fn lemma_pending_is_bit(flags: u8, i: u8)
    requires
        i < 3,
    ensures
        is_pending(flags, i) == crate::utils::bit_at(flags, i as nat),
{
    vstd::arithmetic::power2::lemma2_to64();
    assert({
        &&& (flags & (1u8 << 0u8) != 0) == (flags / 1 % 2 == 1)
        &&& (flags & (1u8 << 1u8) != 0) == (flags / 2 % 2 == 1)
        &&& (flags & (1u8 << 2u8) != 0) == (flags / 4 % 2 == 1)
    }) by (bit_vector);
}

} // verus!
