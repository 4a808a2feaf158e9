use vstd::prelude::*;
use vstd::arithmetic::power2::pow2;

/// Clocks and timers.
pub mod clock;

verus! {

/// Bit `k` of `x`, by division: `x` holds an odd number of `2^k`.
pub open spec fn bit_at(x: u8, k: nat) -> bool {
    (x as int / pow2(k) as int) % 2 == 1
}

/// Number of microseconds of real time that `cycles` CPU cycles take on the
/// arcade board.
pub fn cycles_to_micros(cycles: usize) -> (us: usize)
    requires
        cycles * 1_000_000 <= usize::MAX,
    ensures
        us == cycles * 1_000_000 / (crate::CYCLES_SECOND as int),
{
    cycles * 1_000_000 / crate::CYCLES_SECOND
}

} // verus!
