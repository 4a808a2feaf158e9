use vstd::prelude::*;

verus! {

/// Adds `cycles` to the accumulator `clock` and splits the total into whole
/// periods of `modulo` cycles, which are returned, and the remainder, which
/// stays in the accumulator.
fn step_internal(clock: &mut usize, cycles: usize, modulo: usize) -> (ticks: usize)
    requires
        modulo > 0,
        *old(clock) + cycles <= usize::MAX,
    ensures
        ticks == (*old(clock) + cycles) / (modulo as int),
        *final(clock) == (*old(clock) + cycles) % (modulo as int),
{
    let cycles = cycles + *clock;
    *clock = cycles % modulo;
    cycles / modulo
}

/// A clock that turns CPU cycles into ticks of `M` cycles each.
pub struct FixedClock<const M: usize> {
    pub cycles: usize,
}

impl<const M: usize> FixedClock<M> {
    pub fn new() -> (c: Self)
        ensures
            c.cycles == 0,
    {
        Self { cycles: 0 }
    }

    pub fn reset(&mut self)
        ensures
            final(self).cycles == 0,
    {
        self.cycles = 0;
    }

    /// Advances the clock by `cycles` and returns how many whole ticks of
    /// `M` cycles elapsed; the cycles left over are kept for the next call.
    pub fn step(&mut self, cycles: usize) -> (ticks: usize)
        requires
            M > 0,
            old(self).cycles + cycles <= usize::MAX,
        ensures
            ticks == (old(self).cycles + cycles) / (M as int),
            final(self).cycles == (old(self).cycles + cycles) % (M as int),
    {
        step_internal(&mut self.cycles, cycles, M)
    }
}

/// No cycle is lost: the cycles held before a step plus those added equal
/// the ticks returned times the period plus the cycles held afterwards, and
/// what is held afterwards is less than one period.
pub proof fn lemma_clock_conserves_cycles(held: int, added: int, m: int)
    requires
        held >= 0,
        added >= 0,
        m > 0,
    ensures
        held + added == ((held + added) / m) * m + (held + added) % m,
        0 <= (held + added) % m < m,
{
    vstd::arithmetic::div_mod::lemma_fundamental_div_mod(held + added, m);
    vstd::arithmetic::mul::lemma_mul_is_commutative(m, (held + added) / m);
    vstd::arithmetic::div_mod::lemma_mod_pos_bound(held + added, m);
}

/// Stepping by `a` and then by `b` yields as many ticks in all as one step by
/// `a + b`, and leaves the same remainder.
pub proof fn lemma_clock_steps_compose(held: int, a: int, b: int, m: int)
    requires
        held >= 0,
        a >= 0,
        b >= 0,
        m > 0,
    ensures
        (held + a) / m + ((held + a) % m + b) / m == (held + a + b) / m,
        ((held + a) % m + b) % m == (held + a + b) % m,
{
    let x = held + a;
    let y = x % m + b;
    vstd::arithmetic::div_mod::lemma_fundamental_div_mod(x, m);
    vstd::arithmetic::div_mod::lemma_fundamental_div_mod(y, m);
    vstd::arithmetic::mul::lemma_mul_is_distributive_add_other_way(m, x / m, y / m);
    vstd::arithmetic::mul::lemma_mul_is_commutative(m, x / m);
    vstd::arithmetic::mul::lemma_mul_is_commutative(m, y / m);
    vstd::arithmetic::mul::lemma_mul_is_commutative(m, x / m + y / m);
    vstd::arithmetic::div_mod::lemma_mod_pos_bound(y, m);
    vstd::arithmetic::div_mod::lemma_fundamental_div_mod_converse(x + b, m, x / m + y / m, y % m);
}

} // verus!
