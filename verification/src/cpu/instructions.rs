use vstd::prelude::*;
use super::Cpu;
use crate::cpu::bus::{bus_read, maps, Bus};
use crate::cpu::registers::{has_flag, pair, put_flag, ConditionBits, Registers, AC_MASK, C_MASK, P_MASK, S_MASK, Z_MASK};
use crate::cpu::semantics::{add8, alu, arith_flags, call, cond, daa, dcr, exec_alu, exec_high, exec_low, exec_maps, exec_misc, exec_mov, misc_op, exec_op, get_rp, imm8, inr, logic8, result_flags, parity_even, pop_sp, popcount, push, reg8, ret, set_rp, skip, sub8, tick, top, with_reg8, CpuState};
use crate::io::IOHandler;

verus! {

/// Number of bits set in `x`.
pub fn count_ones(x: u8) -> (n: u8)
    ensures
        n == popcount(x),
{
    assert((x & 1) <= 1 && ((x >> 1u8) & 1) <= 1 && ((x >> 2u8) & 1) <= 1 && ((x >> 3u8) & 1) <= 1
        && ((x >> 4u8) & 1) <= 1 && ((x >> 5u8) & 1) <= 1 && ((x >> 6u8) & 1) <= 1 && ((x >> 7u8)
        & 1) <= 1) by (bit_vector);
    (x & 1) + ((x >> 1u8) & 1) + ((x >> 2u8) & 1) + ((x >> 3u8) & 1) + ((x >> 4u8) & 1) + ((x
        >> 5u8) & 1) + ((x >> 6u8) & 1) + ((x >> 7u8) & 1)
}

proof fn lemma_byte_facts(r: u8)
    ensures
        (r & 0x80 == 0x80) == (r >= 0x80),
        r & 0x0F == r % 16,
        (!r) & 0x0F == 15 - r % 16,
{
    assert((r & 0x80 == 0x80) == (r >= 0x80) && r & 0x0F == r % 16 && (!r) & 0x0F == 15 - r % 16)
        by (bit_vector);
}

/// Sequences of flag writes, in the orders the operations use, give the
/// flags of `arith_flags`.
proof fn lemma_flag_orders(b: u8, z: bool, c: bool, p: bool, s: bool, ac: bool)
    ensures
        put_flag(put_flag(put_flag(put_flag(b, Z_MASK, z), P_MASK, p), S_MASK, s), AC_MASK, ac)
            == arith_flags(b, s, z, ac, p, has_flag(b, C_MASK)),
        put_flag(put_flag(put_flag(put_flag(put_flag(b, Z_MASK, z), C_MASK, c), P_MASK, p), S_MASK, s), AC_MASK, ac)
            == arith_flags(b, s, z, ac, p, c),
        put_flag(put_flag(put_flag(put_flag(put_flag(b, Z_MASK, z), C_MASK, c), AC_MASK, ac), P_MASK, p), S_MASK, s)
            == arith_flags(b, s, z, ac, p, c),
        put_flag(put_flag(put_flag(put_flag(put_flag(b, AC_MASK, ac), C_MASK, c), Z_MASK, z), P_MASK, p), S_MASK, s)
            == arith_flags(b, s, z, ac, p, c),
{
    assert({
        &&& put_flag(put_flag(put_flag(put_flag(b, 0x40, z), 0x04, p), 0x80, s), 0x10, ac)
            == arith_flags(b, s, z, ac, p, has_flag(b, 0x01))
        &&& put_flag(put_flag(put_flag(put_flag(put_flag(b, 0x40, z), 0x01, c), 0x04, p), 0x80, s), 0x10, ac)
            == arith_flags(b, s, z, ac, p, c)
        &&& put_flag(put_flag(put_flag(put_flag(put_flag(b, 0x40, z), 0x01, c), 0x10, ac), 0x04, p), 0x80, s)
            == arith_flags(b, s, z, ac, p, c)
        &&& put_flag(put_flag(put_flag(put_flag(put_flag(b, 0x10, ac), 0x01, c), 0x40, z), 0x04, p), 0x80, s)
            == arith_flags(b, s, z, ac, p, c)
    }) by (bit_vector);
}

/// Sets z, p and s from `res`.
fn set_zps(res: u8, condition_bits: &mut ConditionBits)
    ensures
        final(condition_bits).bits == put_flag(put_flag(put_flag(old(condition_bits).bits, Z_MASK, res == 0), P_MASK, parity_even(res)), S_MASK, res >= 0x80),
{
    proof {
        lemma_byte_facts(res);
    }
    condition_bits.set_z(res == 0);
    condition_bits.set_p(count_ones(res) % 2 == 0);
    condition_bits.set_s(res & 0x80 == 0x80);
}

pub(crate) fn inr_instruction(current_val: u8, condition_bits: &mut ConditionBits) -> (res: u8)
    ensures
        (res, final(condition_bits).bits) == inr(current_val, old(condition_bits).bits),
{
    let res = current_val.wrapping_add(1);
    set_zps(res, condition_bits);
    condition_bits.set_ac((current_val & 0x0F) == 0x0F);
    proof {
        lemma_byte_facts(current_val);
        lemma_flag_orders(old(condition_bits).bits, res == 0, false, parity_even(res), res >= 0x80, current_val % 16 == 15);
    }
    res
}

pub(crate) fn dcr_instruction(current_val: u8, condition_bits: &mut ConditionBits) -> (res: u8)
    ensures
        (res, final(condition_bits).bits) == dcr(current_val, old(condition_bits).bits),
{
    let res = current_val.wrapping_sub(1);
    set_zps(res, condition_bits);
    condition_bits.set_ac((current_val & 0x0F) != 0x00);
    proof {
        lemma_byte_facts(current_val);
        lemma_flag_orders(old(condition_bits).bits, res == 0, false, parity_even(res), res >= 0x80, current_val % 16 != 0);
    }
    res
}

fn add_instruction(current_val: u8, value: u8, carry_in: bool, condition_bits: &mut ConditionBits) -> (res: u8)
    ensures
        (res, final(condition_bits).bits) == add8(current_val, value, carry_in, old(condition_bits).bits),
{
    let ci: u16 = if carry_in { 1 } else { 0 };
    let sum: u16 = (current_val as u16) + (value as u16) + ci;
    let res = (sum % 256) as u8;
    condition_bits.set_z(res == 0);
    condition_bits.set_c(sum > 0xFF);
    condition_bits.set_p(count_ones(res) % 2 == 0);
    condition_bits.set_s(res & 0x80 == 0x80);
    let cb: u8 = if carry_in { 1 } else { 0 };
    proof {
        lemma_byte_facts(current_val);
        lemma_byte_facts(value);
    }
    condition_bits.set_ac(((current_val & 0x0F) + (value & 0x0F) + cb) > 0x0F);
    proof {
        lemma_byte_facts(res);
        lemma_flag_orders(old(condition_bits).bits, res == 0, sum > 0xFF, parity_even(res), res >= 0x80,
            current_val % 16 + value % 16 + cb > 15);
    }
    res
}

fn sub_instruction(current_val: u8, value: u8, borrow_in: bool, condition_bits: &mut ConditionBits) -> (res: u8)
    ensures
        (res, final(condition_bits).bits) == sub8(current_val, value, borrow_in, old(condition_bits).bits),
{
    let bi: u16 = if borrow_in { 1 } else { 0 };
    let subtrahend = (value as u16) + bi;
    let a = current_val as u16;
    // Wrapping 16-bit difference and the borrow out of it.
    let borrow = a < subtrahend;
    let diff: u16 = if borrow { (a + 512 - subtrahend) % 256 } else { a - subtrahend };
    let res = diff as u8;
    condition_bits.set_z(res == 0);
    condition_bits.set_c(borrow);
    condition_bits.set_p(count_ones(res) % 2 == 0);
    condition_bits.set_s(res & 0x80 == 0x80);
    // Subtraction adds the complement: the auxiliary carry is the carry out
    // of bit 3 of current_val + !value + !borrow_in.
    let not_borrow: u8 = if borrow_in { 0 } else { 1 };
    proof {
        lemma_byte_facts(current_val);
        lemma_byte_facts(value);
    }
    condition_bits.set_ac((current_val & 0x0F) + (!value & 0x0F) + not_borrow > 0x0F);
    proof {
        lemma_byte_facts(res);
        lemma_flag_orders(old(condition_bits).bits, res == 0, borrow, parity_even(res), res >= 0x80,
            current_val % 16 + (15 - value % 16) + (1 - bi) > 15);
    }
    res
}

fn and_instruction(current_val: u8, value: u8, condition_bits: &mut ConditionBits) -> (res: u8)
    ensures
        res == current_val & value,
        final(condition_bits).bits == result_flags(old(condition_bits).bits, res, (current_val | value) & 0x08 != 0, false),
{
    let res = current_val & value;
    condition_bits.set_z(res == 0);
    condition_bits.set_c(false);
    // The auxiliary carry is the OR of bit 3 of the two operands.
    condition_bits.set_ac((current_val | value) & 0x08 != 0);
    condition_bits.set_p(count_ones(res) % 2 == 0);
    condition_bits.set_s(res & 0x80 == 0x80);
    proof {
        lemma_byte_facts(res);
        lemma_flag_orders(old(condition_bits).bits, res == 0, false, parity_even(res), res >= 0x80,
            (current_val | value) & 0x08 != 0);
    }
    res
}

fn xor_instruction(current_val: u8, value: u8, condition_bits: &mut ConditionBits) -> (res: u8)
    ensures
        (res, final(condition_bits).bits) == logic8(current_val ^ value, old(condition_bits).bits),
{
    let res = current_val ^ value;
    condition_bits.set_z(res == 0);
    condition_bits.set_c(false);
    condition_bits.set_ac(false);
    condition_bits.set_p(count_ones(res) % 2 == 0);
    condition_bits.set_s(res & 0x80 == 0x80);
    proof {
        lemma_byte_facts(res);
        lemma_flag_orders(old(condition_bits).bits, res == 0, false, parity_even(res), res >= 0x80, false);
    }
    res
}

fn or_instruction(current_val: u8, value: u8, condition_bits: &mut ConditionBits) -> (res: u8)
    ensures
        (res, final(condition_bits).bits) == logic8(current_val | value, old(condition_bits).bits),
{
    let res = current_val | value;
    condition_bits.set_z(res == 0);
    condition_bits.set_c(false);
    condition_bits.set_ac(false);
    condition_bits.set_p(count_ones(res) % 2 == 0);
    condition_bits.set_s(res & 0x80 == 0x80);
    proof {
        lemma_byte_facts(res);
        lemma_flag_orders(old(condition_bits).bits, res == 0, false, parity_even(res), res >= 0x80, false);
    }
    res
}

proof fn lemma_rotations(val: u8, ci: u8)
    requires
        ci <= 1,
    ensures
        ((val >> 7u8) == 1) == (val >= 128),
        ((val & 0x01) == 1) == (val % 2 == 1),
        ((val << 1u8) | (val >> 7u8)) == ((val * 2) % 256 + val / 128) as u8,
        ((val >> 1u8) | (val << 7u8)) == (val / 2 + (val % 2) * 128) as u8,
        ((val << 1u8) | ci) == ((val * 2) % 256 + ci) as u8,
        ((val >> 1u8) | (ci << 7u8)) == (val / 2 + ci * 128) as u8,
        !val == (255 - val) as u8,
        val >> 4u8 == val / 16,
{
    assert({
        &&& ((val >> 7u8) == 1) == (val >= 128)
        &&& ((val & 0x01) == 1) == (val % 2 == 1)
        &&& ((val << 1u8) | (val >> 7u8)) == ((val * 2) % 256 + val / 128) as u8
        &&& ((val >> 1u8) | (val << 7u8)) == (val / 2 + (val % 2) * 128) as u8
        &&& ci <= 1 ==> ((val << 1u8) | ci) == ((val * 2) % 256 + ci) as u8
        &&& ci <= 1 ==> ((val >> 1u8) | (ci << 7u8)) == (val / 2 + ci * 128) as u8
        &&& !val == (255 - val) as u8
        &&& val >> 4u8 == val / 16
    }) by (bit_vector);
}

proof fn lemma_double(hl: u16)
    ensures
        (hl << 1u16) == ((hl + hl) % 65536) as u16,
        ((hl << 1u16) < hl) == (hl + hl > 65535),
{
    assert((hl << 1u16) == ((hl + hl) % 65536) as u16 && ((hl << 1u16) < hl) == (hl + hl > 65535)) by (bit_vector);
}

/// RLC, RRC, RAL, RAR, DAA, CMA, STC, CMC on accumulator value `val`.
pub(crate) fn misc_instruction(d: u8, val: u8, condition_bits: &mut ConditionBits) -> (res: u8)
    requires
        d < 8,
    ensures
        (res, final(condition_bits).bits) == misc_op(d, val, old(condition_bits).bits),
{
    let ci: u8 = if condition_bits.c() {
        1
    } else {
        0
    };
    proof {
        lemma_rotations(val, ci);
    }
    if d == 0 {
        // RLC
        condition_bits.set_c(val >> 7 == 1);
        (val << 1) | (val >> 7)
    } else if d == 1 {
        // RRC
        condition_bits.set_c(val & 0x01 == 1);
        (val >> 1) | (val << 7)
    } else if d == 2 {
        // RAL
        let res = (val << 1) | ci;
        condition_bits.set_c(val >> 7 == 1);
        res
    } else if d == 3 {
        // RAR
        let res = (val >> 1) | (ci << 7);
        condition_bits.set_c(val & 0x01 == 1);
        res
    } else if d == 4 {
        daa_instruction(val, condition_bits)
    } else if d == 5 {
        // CMA
        !val
    } else if d == 6 {
        // STC
        condition_bits.set_c(true);
        val
    } else {
        // CMC
        let c = condition_bits.c();
        condition_bits.set_c(!c);
        val
    }
}

/// DAA: decimal adjust of accumulator value `val`.
fn daa_instruction(val: u8, condition_bits: &mut ConditionBits) -> (res: u8)
    ensures
        (res, final(condition_bits).bits) == daa(val, old(condition_bits).bits),
{
    let mut accumulator = val;
    let ac = condition_bits.ac();
    let old_c = condition_bits.c();
    let mut step1_carry = false;
    let mut step2_carry = false;
    let lower_nibble = accumulator & 0x0F;
    proof {
        lemma_byte_facts(accumulator);
    }
    let ghost new_ac = (lower_nibble > 9 || ac) && lower_nibble + 6 > 15;
    if lower_nibble > 9 || ac {
        condition_bits.set_ac((lower_nibble + 0x06) > 0x0F);
        let sum = accumulator as u16 + 6;
        step1_carry = sum > 0xFF;
        accumulator = (sum % 256) as u8;
    } else {
        condition_bits.set_ac(false);
    }
    let upper_nibble = accumulator >> 4;
    proof {
        lemma_rotations(accumulator, 0);
    }
    if upper_nibble > 9 || old_c || step1_carry {
        let sum = accumulator as u16 + 0x60;
        step2_carry = sum > 0xFF;
        accumulator = (sum % 256) as u8;
    }
    condition_bits.set_c(step1_carry || step2_carry || old_c);
    set_zps(accumulator, condition_bits);
    proof {
        lemma_flag_orders(old(condition_bits).bits, accumulator == 0, step1_carry || step2_carry || old_c,
            parity_even(accumulator), accumulator >= 0x80, new_ac);
    }
    accumulator
}

impl Cpu {
    /// Register by its three-bit code (not M).
    fn read_reg(&self, code: u8) -> (v: u8)
        requires
            code < 8,
            code != 6,
        ensures
            v == reg8(self@.regs, code),
    {
        if code == 0 {
            self.registers.B
        } else if code == 1 {
            self.registers.C
        } else if code == 2 {
            self.registers.D
        } else if code == 3 {
            self.registers.E
        } else if code == 4 {
            self.registers.H
        } else if code == 5 {
            self.registers.L
        } else {
            self.registers.A
        }
    }

    /// Sets the register of three-bit code `code` (not M).
    fn write_reg(&mut self, code: u8, v: u8)
        requires
            code < 8,
            code != 6,
        ensures
            final(self)@ == (CpuState { regs: with_reg8(old(self)@.regs, code, v), ..old(self)@ }),
    {
        if code == 0 {
            self.registers.B = v;
        } else if code == 1 {
            self.registers.C = v;
        } else if code == 2 {
            self.registers.D = v;
        } else if code == 3 {
            self.registers.E = v;
        } else if code == 4 {
            self.registers.H = v;
        } else if code == 5 {
            self.registers.L = v;
        } else {
            self.registers.A = v;
        }
    }

    /// Register pair by its two-bit code: BC, DE, HL, SP.
    fn read_pair(&self, rp: u8) -> (v: u16)
        requires
            rp < 4,
        ensures
            v == get_rp(self@, rp),
    {
        if rp == 0 {
            self.registers.get_bc()
        } else if rp == 1 {
            self.registers.get_de()
        } else if rp == 2 {
            self.registers.get_hl()
        } else {
            self.sp
        }
    }

    /// Sets the register pair of two-bit code `rp`: BC, DE, HL, SP.
    fn write_pair(&mut self, rp: u8, v: u16)
        requires
            rp < 4,
        ensures
            final(self)@ == set_rp(old(self)@, rp, v),
    {
        if rp == 0 {
            self.registers.set_bc(v);
        } else if rp == 1 {
            self.registers.set_de(v);
        } else if rp == 2 {
            self.registers.set_hl(v);
        } else {
            self.sp = v;
        }
    }

    /// Tests the condition of three-bit code `code`.
    fn test_cond(&self, code: u8) -> (r: bool)
        requires
            code < 8,
        ensures
            r == cond(code, self@.flags),
    {
        if code == 0 {
            !self.condition_bits.z()
        } else if code == 1 {
            self.condition_bits.z()
        } else if code == 2 {
            !self.condition_bits.c()
        } else if code == 3 {
            self.condition_bits.c()
        } else if code == 4 {
            !self.condition_bits.p()
        } else if code == 5 {
            self.condition_bits.p()
        } else if code == 6 {
            !self.condition_bits.s()
        } else {
            self.condition_bits.s()
        }
    }

    fn push<I: IOHandler>(&mut self, bus: &mut Bus<I>, val: u16)
        requires
            old(bus).wf(),
            maps(old(bus)@, old(self)@.sp.wrapping_sub(2)),
            maps(old(bus)@, old(self)@.sp.wrapping_sub(2).wrapping_add(1)),
        ensures
            (final(self)@, final(bus)@) == push(old(self)@, old(bus)@, val),
            final(bus).wf(),
            final(bus).same_frame(old(bus)),
    {
        self.sp = self.sp.wrapping_sub(2);
        bus.write_u16(self.sp, val);
    }

    fn pop<I: IOHandler>(&mut self, bus: &mut Bus<I>) -> (val: u16)
        requires
            old(bus).wf(),
            maps(old(bus)@, old(self)@.sp),
            maps(old(bus)@, old(self)@.sp.wrapping_add(1)),
        ensures
            val == top(old(self)@, old(bus)@),
            final(self)@ == pop_sp(old(self)@),
            *final(bus) == *old(bus),
    {
        let val = bus.read_u16(self.sp);
        self.sp = self.sp.wrapping_add(2);
        val
    }

    fn call<I: IOHandler>(&mut self, bus: &mut Bus<I>, off: u16)
        requires
            old(bus).wf(),
            maps(old(bus)@, old(self)@.sp.wrapping_sub(2)),
            maps(old(bus)@, old(self)@.sp.wrapping_sub(2).wrapping_add(1)),
        ensures
            (final(self)@, final(bus)@) == call(old(self)@, old(bus)@, off),
            final(bus).wf(),
            final(bus).same_frame(old(bus)),
    {
        let pc = self.pc;
        self.push(bus, pc);
        self.pc = off;
    }

    fn ret<I: IOHandler>(&mut self, bus: &mut Bus<I>)
        requires
            old(bus).wf(),
            maps(old(bus)@, old(self)@.sp),
            maps(old(bus)@, old(self)@.sp.wrapping_add(1)),
        ensures
            final(self)@ == ret(old(self)@, old(bus)@),
            *final(bus) == *old(bus),
    {
        self.pc = self.pop(bus);
    }

    fn jp(&mut self, off: u16)
        ensures
            final(self)@ == (CpuState { pc: off, ..old(self)@ }),
    {
        self.pc = off;
    }

    /// Runs the accumulator operation of three-bit code `code` on operand `v`.
    fn alu_op(&mut self, code: u8, v: u8)
        requires
            code < 8,
        ensures
            final(self)@ == (CpuState {
                regs: Registers { A: alu(code, old(self)@.regs.A, v, old(self)@.flags).0, ..old(self)@.regs },
                flags: alu(code, old(self)@.regs.A, v, old(self)@.flags).1,
                ..old(self)@
            }),
    {
        let a = self.registers.A;
        let c = self.condition_bits.c();
        if code == 0 {
            self.registers.A = add_instruction(a, v, false, &mut self.condition_bits);
        } else if code == 1 {
            self.registers.A = add_instruction(a, v, c, &mut self.condition_bits);
        } else if code == 2 {
            self.registers.A = sub_instruction(a, v, false, &mut self.condition_bits);
        } else if code == 3 {
            self.registers.A = sub_instruction(a, v, c, &mut self.condition_bits);
        } else if code == 4 {
            self.registers.A = and_instruction(a, v, &mut self.condition_bits);
        } else if code == 5 {
            self.registers.A = xor_instruction(a, v, &mut self.condition_bits);
        } else if code == 6 {
            self.registers.A = or_instruction(a, v, &mut self.condition_bits);
        } else {
            // CMP only sets the flags.
            sub_instruction(a, v, false, &mut self.condition_bits);
        }
    }

    /// Fetches, decodes and runs one instruction. Returns what the I/O
    /// handler answered when the instruction is IN, and 0 otherwise.
    #[verifier::rlimit(30)]
    pub(super) fn run_instr<I: IOHandler>(&mut self, bus: &mut Bus<I>) -> (input: u8)
        requires
            old(bus).wf(),
            maps(old(bus)@, old(self)@.pc),
            exec_maps(bus_read(old(bus)@, old(self)@.pc), tick(skip(old(self)@, 1), 4), old(bus)@),
            old(self)@.cycles + 18 <= usize::MAX,
        ensures
            (final(self)@, final(bus)@) == exec_op(bus_read(old(bus)@, old(self)@.pc), tick(skip(old(self)@, 1), 4), old(bus)@, input),
            final(bus).wf(),
            final(bus).same_devices(old(bus)),
            bus_read(old(bus)@, old(self)@.pc) != 0xD3 ==> final(bus).io == old(bus).io,
            bus_read(old(bus)@, old(self)@.pc) == 0xDB ==> call_ensures(
                I::read_port,
                (&old(bus).handler(), bus_read(old(bus)@, old(self)@.pc.wrapping_add(1))),
                input,
            ),
            bus_read(old(bus)@, old(self)@.pc) == 0xD3 ==> exists|io: &mut I|
                *io == old(bus).handler() && *final(io) == final(bus).handler()
                    && #[trigger] call_ensures(
                    I::write_port,
                    (io, bus_read(old(bus)@, old(self)@.pc.wrapping_add(1)), old(self)@.regs.A),
                    (),
                ),
    {
        proof {
            reveal(exec_op);
        }
        self.cycles += 4;
        let op = self.fetch_u8(bus);
        if op < 0x40 {
            self.exec_low(op, bus);
            0
        } else if op < 0x80 {
            self.exec_mov(op, bus);
            0
        } else if op < 0xC0 {
            self.exec_alu(op, bus);
            0
        } else {
            self.exec_high(op, bus)
        }
    }

    /// MOV d,s and HLT.
    fn exec_mov<I: IOHandler>(&mut self, op: u8, bus: &mut Bus<I>)
        requires
            0x40 <= op < 0x80,
            old(bus).wf(),
            exec_maps(op, old(self)@, old(bus)@),
            old(self)@.cycles + 13 <= usize::MAX,
        ensures
            (final(self)@, final(bus)@) == exec_mov(op, old(self)@, old(bus)@),
            final(bus).wf(),
            final(bus).same_frame(old(bus)),
    {
        let d = op / 8 % 8;
        let s = op % 8;
        if op == 0x76 {
            // HLT
            if self.ime {
                self.halt = true;
            } else {
                // Interrupts are disabled: do not halt.
            }
            self.cycles += 3;
        } else if d == 6 {
            // MOV M, s
            let addr = self.registers.get_hl();
            let v = self.read_reg(s);
            bus.write_u8(addr, v);
            self.cycles += 3;
        } else if s == 6 {
            // MOV d, M
            let v = bus.read_u8(self.registers.get_hl());
            self.write_reg(d, v);
            self.cycles += 3;
        } else {
            let v = self.read_reg(s);
            self.write_reg(d, v);
            self.cycles += 1;
        }
    }

    /// ADD, ADC, SUB, SBB, ANA, XRA, ORA, CMP on a register or M.
    fn exec_alu<I: IOHandler>(&mut self, op: u8, bus: &mut Bus<I>)
        requires
            0x80 <= op < 0xC0,
            old(bus).wf(),
            exec_maps(op, old(self)@, old(bus)@),
            old(self)@.cycles + 13 <= usize::MAX,
        ensures
            (final(self)@, final(bus)@) == exec_alu(op, old(self)@, old(bus)@),
            final(bus).wf(),
            final(bus).same_frame(old(bus)),
    {
        let s = op % 8;
        let code = op / 8 % 8;
        if s == 6 {
            let v = bus.read_u8(self.registers.get_hl());
            self.alu_op(code, v);
            self.cycles += 3;
        } else {
            let v = self.read_reg(s);
            self.alu_op(code, v);
        }
    }

    /// Opcodes 0x00 - 0x3F.
    fn exec_low<I: IOHandler>(&mut self, op: u8, bus: &mut Bus<I>)
        requires
            op < 0x40,
            old(bus).wf(),
            exec_maps(op, old(self)@, old(bus)@),
            old(self)@.cycles + 13 <= usize::MAX,
        ensures
            (final(self)@, final(bus)@) == exec_low(op, old(self)@, old(bus)@),
            final(bus).wf(),
            final(bus).same_frame(old(bus)),
    {
        let y = op % 8;
        if y == 0 {
            // NOP
        } else if y == 1 {
            self.exec_lxi_dad(op, bus);
        } else if y == 2 {
            self.exec_load_store(op, bus);
        } else if y == 3 {
            self.exec_inx_dcx(op);
        } else if y == 4 || y == 5 {
            self.exec_inr_dcr(op, bus);
        } else if y == 6 {
            self.exec_mvi(op, bus);
        } else {
            self.exec_misc(op / 8 % 8);
        }
    }

    /// INX rp and DCX rp.
    fn exec_inx_dcx(&mut self, op: u8)
        requires
            op < 0x40,
            op % 8 == 3,
            old(self)@.cycles + 13 <= usize::MAX,
        ensures
            forall|b: crate::cpu::bus::BusView| #![auto] exec_low(op, old(self)@, b) == (final(self)@, b),
    {
        let rp = op / 16 % 4;
        let v = self.read_pair(rp);
        if op / 8 % 2 == 0 {
            self.write_pair(rp, v.wrapping_add(1));
        } else {
            self.write_pair(rp, v.wrapping_sub(1));
        }
        self.cycles += 1;
    }

    /// MVI d, d8.
    fn exec_mvi<I: IOHandler>(&mut self, op: u8, bus: &mut Bus<I>)
        requires
            op < 0x40,
            op % 8 == 6,
            old(bus).wf(),
            exec_maps(op, old(self)@, old(bus)@),
            old(self)@.cycles + 13 <= usize::MAX,
        ensures
            (final(self)@, final(bus)@) == exec_low(op, old(self)@, old(bus)@),
            final(bus).wf(),
            final(bus).same_frame(old(bus)),
    {
        let d = op / 8 % 8;
        if d == 6 {
            let addr = self.registers.get_hl();
            let v = self.fetch_u8(bus);
            bus.write_u8(addr, v);
            self.cycles += 6;
        } else {
            let v = self.fetch_u8(bus);
            self.write_reg(d, v);
            self.cycles += 3;
        }
    }

    /// LXI rp, d16 and DAD rp.
    fn exec_lxi_dad<I: IOHandler>(&mut self, op: u8, bus: &mut Bus<I>)
        requires
            op < 0x40,
            op % 8 == 1,
            old(bus).wf(),
            exec_maps(op, old(self)@, old(bus)@),
            old(self)@.cycles + 13 <= usize::MAX,
        ensures
            (final(self)@, final(bus)@) == exec_low(op, old(self)@, old(bus)@),
            *final(bus) == *old(bus),
    {
        let rp = op / 16 % 4;
        if op / 8 % 2 == 0 {
            // LXI rp, d16
            let val = self.fetch_u16(bus);
            self.write_pair(rp, val);
            self.cycles += 6;
        } else if rp == 2 {
            // DAD H
            let hl = self.registers.get_hl();
            let res = hl << 1;
            proof {
                lemma_double(hl);
            }
            self.registers.set_hl(res);
            self.condition_bits.set_c(res < hl);
            self.cycles += 6;
        } else {
            // DAD B / DAD D / DAD SP
            let hl = self.registers.get_hl();
            let other = self.read_pair(rp);
            let sum = hl as u32 + other as u32;
            self.registers.set_hl((sum % 65536) as u16);
            self.condition_bits.set_c(sum > 0xFFFF);
            self.cycles += 6;
        }
    }

    /// STAX, SHLD, STA, LDAX, LHLD, LDA.
    fn exec_load_store<I: IOHandler>(&mut self, op: u8, bus: &mut Bus<I>)
        requires
            op < 0x40,
            op % 8 == 2,
            old(bus).wf(),
            exec_maps(op, old(self)@, old(bus)@),
            old(self)@.cycles + 13 <= usize::MAX,
        ensures
            (final(self)@, final(bus)@) == exec_low(op, old(self)@, old(bus)@),
            final(bus).wf(),
            final(bus).same_frame(old(bus)),
    {
        if op == 0x02 {
            // STAX B
            bus.write_u8(self.registers.get_bc(), self.registers.A);
            self.cycles += 3;
        } else if op == 0x12 {
            // STAX D
            bus.write_u8(self.registers.get_de(), self.registers.A);
            self.cycles += 3;
        } else if op == 0x22 {
            // SHLD a16
            let addr = self.fetch_u16(bus);
            bus.write_u16(addr, self.registers.get_hl());
            self.cycles += 12;
        } else if op == 0x32 {
            // STA a16
            let addr = self.fetch_u16(bus);
            bus.write_u8(addr, self.registers.A);
            self.cycles += 9;
        } else if op == 0x0A {
            // LDAX B
            self.registers.A = bus.read_u8(self.registers.get_bc());
            self.cycles += 3;
        } else if op == 0x1A {
            // LDAX D
            self.registers.A = bus.read_u8(self.registers.get_de());
            self.cycles += 3;
        } else if op == 0x2A {
            // LHLD a16
            let addr = self.fetch_u16(bus);
            let v = bus.read_u16(addr);
            self.registers.set_hl(v);
            self.cycles += 12;
        } else {
            // LDA a16
            let addr = self.fetch_u16(bus);
            self.registers.A = bus.read_u8(addr);
            self.cycles += 9;
        }
    }

    /// INR d and DCR d.
    fn exec_inr_dcr<I: IOHandler>(&mut self, op: u8, bus: &mut Bus<I>)
        requires
            op < 0x40,
            op % 8 == 4 || op % 8 == 5,
            old(bus).wf(),
            exec_maps(op, old(self)@, old(bus)@),
            old(self)@.cycles + 13 <= usize::MAX,
        ensures
            (final(self)@, final(bus)@) == exec_low(op, old(self)@, old(bus)@),
            final(bus).wf(),
            final(bus).same_frame(old(bus)),
    {
        let d = op / 8 % 8;
        let inc = op % 8 == 4;
        if d == 6 {
            let addr = self.registers.get_hl();
            let val = bus.read_u8(addr);
            let res = if inc {
                inr_instruction(val, &mut self.condition_bits)
            } else {
                dcr_instruction(val, &mut self.condition_bits)
            };
            bus.write_u8(addr, res);
            self.cycles += 6;
        } else {
            let val = self.read_reg(d);
            let res = if inc {
                inr_instruction(val, &mut self.condition_bits)
            } else {
                dcr_instruction(val, &mut self.condition_bits)
            };
            self.write_reg(d, res);
            self.cycles += 1;
        }
    }

    /// RLC, RRC, RAL, RAR, DAA, CMA, STC, CMC.
    fn exec_misc(&mut self, d: u8)
        requires
            d < 8,
        ensures
            final(self)@ == exec_misc(d, old(self)@),
    {
        let a = self.registers.A;
        self.registers.A = misc_instruction(d, a, &mut self.condition_bits);
    }

    /// Opcodes 0xC0 - 0xFF. Returns what the I/O handler answered when the
    /// opcode is IN, and 0 otherwise.
    #[verifier::rlimit(30)]
    fn exec_high<I: IOHandler>(&mut self, op: u8, bus: &mut Bus<I>) -> (input: u8)
        requires
            0xC0 <= op,
            old(bus).wf(),
            exec_maps(op, old(self)@, old(bus)@),
            old(self)@.cycles + 14 <= usize::MAX,
        ensures
            (final(self)@, final(bus)@) == exec_high(op, old(self)@, old(bus)@, input),
            final(bus).wf(),
            final(bus).same_devices(old(bus)),
            op != 0xD3 ==> final(bus).io == old(bus).io,
            op == 0xDB ==> call_ensures(I::read_port, (&old(bus).handler(), imm8(old(self)@, old(bus)@)), input),
            op == 0xD3 ==> exists|io: &mut I|
                *io == old(bus).handler() && *final(io) == final(bus).handler()
                    && #[trigger] call_ensures(I::write_port, (io, imm8(old(self)@, old(bus)@), old(self)@.regs.A), ()),
    {
        let y = op % 8;
        let d = op / 8 % 8;
        if y == 0 {
            // Rcc
            if self.test_cond(d) {
                self.ret(bus);
                self.cycles += 6;
            }
            self.cycles += 1;
        } else if y == 1 {
            self.exec_pop_ret(op, bus);
        } else if y == 2 {
            // Jcc a16
            let off = self.fetch_u16(bus);
            if self.test_cond(d) {
                self.jp(off);
            }
            self.cycles += 6;
        } else if y == 3 {
            return self.exec_jmp_io(op, bus);
        } else if y == 4 {
            // Ccc a16
            let off = self.fetch_u16(bus);
            if self.test_cond(d) {
                self.call(bus, off);
                self.cycles += 6;
            }
            self.cycles += 7;
        } else if y == 5 {
            if d % 2 == 0 {
                // PUSH rp / PUSH PSW
                let val = if d == 6 {
                    proof {
                        super::registers::lemma_pair_bytes(self.registers.A, self.condition_bits.bits);
                    }
                    ((self.registers.A as u16) << 8) | (self.condition_bits.bits as u16)
                } else {
                    self.read_pair(d / 2)
                };
                self.push(bus, val);
                self.cycles += 7;
            } else {
                // CALL a16
                let off = self.fetch_u16(bus);
                self.call(bus, off);
                self.cycles += 13;
            }
        } else if y == 6 {
            // ADI, ACI, SUI, SBI, ANI, XRI, ORI, CPI d8
            let v = self.fetch_u8(bus);
            self.alu_op(d, v);
            self.cycles += 3;
        } else {
            // RST d
            self.call(bus, (d as u16) * 8);
            self.cycles += 7;
        }
        0
    }

    /// JMP, OUT, IN, XTHL, XCHG, DI and EI. Returns what the I/O handler
    /// answered when the opcode is IN, and 0 otherwise.
    #[verifier::rlimit(30)]
    fn exec_jmp_io<I: IOHandler>(&mut self, op: u8, bus: &mut Bus<I>) -> (input: u8)
        requires
            0xC0 <= op,
            op % 8 == 3,
            old(bus).wf(),
            exec_maps(op, old(self)@, old(bus)@),
            old(self)@.cycles + 14 <= usize::MAX,
        ensures
            (final(self)@, final(bus)@) == exec_high(op, old(self)@, old(bus)@, input),
            final(bus).wf(),
            final(bus).same_devices(old(bus)),
            op != 0xD3 ==> final(bus).io == old(bus).io,
            op == 0xDB ==> call_ensures(I::read_port, (&old(bus).handler(), imm8(old(self)@, old(bus)@)), input),
            op == 0xD3 ==> exists|io: &mut I|
                *io == old(bus).handler() && *final(io) == final(bus).handler()
                    && #[trigger] call_ensures(I::write_port, (io, imm8(old(self)@, old(bus)@), old(self)@.regs.A), ()),
    {
        let d = op / 8 % 8;
        if d == 0 || d == 1 {
            // JMP a16
            let off = self.fetch_u16(bus);
            self.jp(off);
            self.cycles += 6;
            0
        } else if d == 2 {
            // OUT d8
            let port = self.fetch_u8(bus);
            bus.io_write(port, self.registers.A);
            self.cycles += 6;
            0
        } else if d == 3 {
            // IN d8
            let port = self.fetch_u8(bus);
            let v = bus.io_read(port);
            self.registers.A = v;
            self.cycles += 6;
            v
        } else if d == 4 {
            // XTHL
            let top = bus.read_u16(self.sp);
            let hl = self.registers.get_hl();
            bus.write_u16(self.sp, hl);
            self.registers.set_hl(top);
            self.cycles += 14;
            0
        } else if d == 5 {
            // XCHG
            let de = self.registers.get_de();
            let hl = self.registers.get_hl();
            self.registers.set_de(hl);
            self.registers.set_hl(de);
            0
        } else if d == 6 {
            // DI
            self.ime = false;
            0
        } else {
            // EI
            self.ime = true;
            0
        }
    }

    /// POP rp, POP PSW, RET, PCHL and SPHL.
    fn exec_pop_ret<I: IOHandler>(&mut self, op: u8, bus: &mut Bus<I>)
        requires
            0xC0 <= op,
            op % 8 == 1,
            old(bus).wf(),
            exec_maps(op, old(self)@, old(bus)@),
            old(self)@.cycles + 14 <= usize::MAX,
        ensures
            forall|input: u8| #![auto] (final(self)@, final(bus)@) == exec_high(op, old(self)@, old(bus)@, input),
            *final(bus) == *old(bus),
    {
        let d = op / 8 % 8;
        if d % 2 == 0 {
            let val = self.pop(bus);
            if d == 6 {
                // POP PSW
                proof {
                    super::registers::lemma_split_pair(val);
                }
                self.registers.A = (val >> 8) as u8;
                self.condition_bits.set_bits(val as u8);
            } else {
                self.write_pair(d / 2, val);
            }
            self.cycles += 6;
        } else if d == 5 {
            // PCHL
            self.pc = self.registers.get_hl();
            self.cycles += 1;
        } else if d == 7 {
            // SPHL
            self.sp = self.registers.get_hl();
            self.cycles += 1;
        } else {
            // RET
            self.ret(bus);
            self.cycles += 6;
        }
    }
}

} // verus!
