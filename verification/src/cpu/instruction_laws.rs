//! What the arithmetic, logic and branch instructions do, stated directly on
//! their operands and the old state.
use vstd::prelude::*;
use vstd::arithmetic::power2::lemma2_to64;
use crate::cpu::registers::{has_flag, AC_MASK, C_MASK, P_MASK, S_MASK, Z_MASK};
use crate::cpu::bus::{bus_read, bus_read16, bus_write, BusView};
use crate::cpu::registers::{pair, psw_flags, Registers};
use crate::cpu::semantics::{alu, dcr, get_rp, set_rp, exec_alu, exec_high, exec_low, exec_op, inr, parity_even, popcount, skip, step_spec, tick, CpuState};
use crate::cpu::properties::{lemma_flag_bits_of, lemma_named_reg8, lemma_named_with_reg8};
use crate::cpu::{is_register_name, named_register};
use crate::disassembler::reg_name;
use crate::utils::bit_at;

verus! {

/// Number of bits of `x` that are set.
pub open spec fn set_bits(x: u8) -> int {
    (if bit_at(x, 0) { 1int } else { 0 }) + (if bit_at(x, 1) { 1int } else { 0 }) + (if bit_at(x, 2) {
        1int
    } else {
        0
    }) + (if bit_at(x, 3) { 1int } else { 0 }) + (if bit_at(x, 4) { 1int } else { 0 }) + (if bit_at(x, 5) {
        1int
    } else {
        0
    }) + (if bit_at(x, 6) { 1int } else { 0 }) + (if bit_at(x, 7) { 1int } else { 0 })
}

proof fn lemma_bits_of(x: u8)
    ensures
        popcount(x) == set_bits(x),
        parity_even(x) == (set_bits(x) % 2 == 0),
        bit_at(x, 7) == (x >= 128),
{
    lemma2_to64();
    assert({
        &&& (x & 1 == 1) == (x / 1 % 2 == 1)
        &&& ((x >> 1u8) & 1 == 1) == (x / 2 % 2 == 1)
        &&& ((x >> 2u8) & 1 == 1) == (x / 4 % 2 == 1)
        &&& ((x >> 3u8) & 1 == 1) == (x / 8 % 2 == 1)
        &&& ((x >> 4u8) & 1 == 1) == (x / 16 % 2 == 1)
        &&& ((x >> 5u8) & 1 == 1) == (x / 32 % 2 == 1)
        &&& ((x >> 6u8) & 1 == 1) == (x / 64 % 2 == 1)
        &&& ((x >> 7u8) & 1 == 1) == (x / 128 % 2 == 1)
        &&& (x & 1) <= 1 && ((x >> 1u8) & 1) <= 1 && ((x >> 2u8) & 1) <= 1 && ((x >> 3u8) & 1) <= 1
        &&& ((x >> 4u8) & 1) <= 1 && ((x >> 5u8) & 1) <= 1 && ((x >> 6u8) & 1) <= 1 && ((x >> 7u8) & 1) <= 1
    }) by (bit_vector);
}

proof fn lemma_bitwise(a: u8, v: u8)
    ensures
        forall|k: nat| k < 8 ==> #[trigger] bit_at(a & v, k) == (bit_at(a, k) && bit_at(v, k)),
        forall|k: nat| k < 8 ==> #[trigger] bit_at(a ^ v, k) == (bit_at(a, k) != bit_at(v, k)),
        forall|k: nat| k < 8 ==> #[trigger] bit_at(a | v, k) == (bit_at(a, k) || bit_at(v, k)),
        ((a | v) & 0x08 != 0) == (bit_at(a, 3) || bit_at(v, 3)),
{
    lemma2_to64();
    let (n, x, o) = (a & v, a ^ v, a | v);
    assert({
        &&& (n / 1 % 2 == 1) == (a / 1 % 2 == 1 && v / 1 % 2 == 1)
        &&& (n / 2 % 2 == 1) == (a / 2 % 2 == 1 && v / 2 % 2 == 1)
        &&& (n / 4 % 2 == 1) == (a / 4 % 2 == 1 && v / 4 % 2 == 1)
        &&& (n / 8 % 2 == 1) == (a / 8 % 2 == 1 && v / 8 % 2 == 1)
        &&& (n / 16 % 2 == 1) == (a / 16 % 2 == 1 && v / 16 % 2 == 1)
        &&& (n / 32 % 2 == 1) == (a / 32 % 2 == 1 && v / 32 % 2 == 1)
        &&& (n / 64 % 2 == 1) == (a / 64 % 2 == 1 && v / 64 % 2 == 1)
        &&& (n / 128 % 2 == 1) == (a / 128 % 2 == 1 && v / 128 % 2 == 1)
        &&& (x / 1 % 2 == 1) == (a / 1 % 2 == 1 != (v / 1 % 2 == 1))
        &&& (x / 2 % 2 == 1) == (a / 2 % 2 == 1 != (v / 2 % 2 == 1))
        &&& (x / 4 % 2 == 1) == (a / 4 % 2 == 1 != (v / 4 % 2 == 1))
        &&& (x / 8 % 2 == 1) == (a / 8 % 2 == 1 != (v / 8 % 2 == 1))
        &&& (x / 16 % 2 == 1) == (a / 16 % 2 == 1 != (v / 16 % 2 == 1))
        &&& (x / 32 % 2 == 1) == (a / 32 % 2 == 1 != (v / 32 % 2 == 1))
        &&& (x / 64 % 2 == 1) == (a / 64 % 2 == 1 != (v / 64 % 2 == 1))
        &&& (x / 128 % 2 == 1) == (a / 128 % 2 == 1 != (v / 128 % 2 == 1))
        &&& (o / 1 % 2 == 1) == (a / 1 % 2 == 1 || v / 1 % 2 == 1)
        &&& (o / 2 % 2 == 1) == (a / 2 % 2 == 1 || v / 2 % 2 == 1)
        &&& (o / 4 % 2 == 1) == (a / 4 % 2 == 1 || v / 4 % 2 == 1)
        &&& (o / 8 % 2 == 1) == (a / 8 % 2 == 1 || v / 8 % 2 == 1)
        &&& (o / 16 % 2 == 1) == (a / 16 % 2 == 1 || v / 16 % 2 == 1)
        &&& (o / 32 % 2 == 1) == (a / 32 % 2 == 1 || v / 32 % 2 == 1)
        &&& (o / 64 % 2 == 1) == (a / 64 % 2 == 1 || v / 64 % 2 == 1)
        &&& (o / 128 % 2 == 1) == (a / 128 % 2 == 1 || v / 128 % 2 == 1)
        &&& ((a | v) & 0x08 != 0) == (a / 8 % 2 == 1 || v / 8 % 2 == 1)
    }) by (bit_vector)
        requires
            n == a & v,
            x == a ^ v,
            o == a | v,
    ;
}

/// The eight accumulator operations (ADD, ADC, SUB, SBB, ANA, XRA, ORA, CMP
/// by their three-bit code, on register, memory or immediate operand `v`),
/// stated on the accumulator `a` and the carry in: the result, the carry
/// and the auxiliary carry, and for all but CMP the zero, sign and parity
/// flags of the result. CMP keeps `a` and flags `a - v`.
#[verifier::rlimit(30)]
pub proof fn lemma_alu_results(code: u8, a: u8, v: u8, f: u8)
    requires
        code < 8,
    ensures
        ({
            let (r, g) = alu(code, a, v, f);
            let cy: int = if has_flag(f, C_MASK) { 1 } else { 0 };
            let carry = has_flag(g, C_MASK);
            let ac = has_flag(g, AC_MASK);
            &&& code == 0 ==> r == (a + v) % 256 && carry == (a + v > 255) && ac == (a % 16 + v % 16 > 15)
            &&& code == 1 ==> r == (a + v + cy) % 256 && carry == (a + v + cy > 255) && ac == (a % 16 + v
                % 16 + cy > 15)
            &&& code == 2 ==> r == (a - v + 256) % 256 && carry == (a < v) && ac == (a % 16 >= v % 16)
            &&& code == 3 ==> r == (a - v - cy + 512) % 256 && carry == (a < v + cy) && ac == (a % 16 >= v
                % 16 + cy)
            &&& code == 4 ==> (forall|k: nat| k < 8 ==> #[trigger] bit_at(r, k) == (bit_at(a, k) && bit_at(v, k)))
                && !carry && ac == (bit_at(a, 3) || bit_at(v, 3))
            &&& code == 5 ==> (forall|k: nat| k < 8 ==> #[trigger] bit_at(r, k) == (bit_at(a, k) != bit_at(v, k)))
                && !carry && !ac
            &&& code == 6 ==> (forall|k: nat| k < 8 ==> #[trigger] bit_at(r, k) == (bit_at(a, k) || bit_at(v, k)))
                && !carry && !ac
            &&& code == 7 ==> r == a && carry == (a < v) && ac == (a % 16 >= v % 16) && has_flag(g, Z_MASK) == (
            a == v)
            &&& code != 7 ==> {
                &&& has_flag(g, Z_MASK) == (r == 0)
                &&& has_flag(g, S_MASK) == bit_at(r, 7)
                &&& has_flag(g, P_MASK) == (set_bits(r) % 2 == 0)
            }
        }),
{
    let (r, g) = alu(code, a, v, f);
    lemma_bits_of(r);
    let cy: int = if has_flag(f, C_MASK) { 1 } else { 0 };
    if code == 0 {
        lemma_flag_bits_of(f, r >= 0x80, r == 0, a % 16 + v % 16 > 15, parity_even(r), a + v > 255);
    } else if code == 1 {
        lemma_flag_bits_of(f, r >= 0x80, r == 0, a % 16 + v % 16 + cy > 15, parity_even(r), a + v + cy > 255);
    } else if code == 2 || code == 7 {
        let d = crate::cpu::semantics::sub8(a, v, false, f).0;
        lemma_flag_bits_of(f, d >= 0x80, d == 0, a % 16 + (15 - v % 16) + 1 > 15, parity_even(d), a - v < 0);
    } else if code == 3 {
        lemma_flag_bits_of(f, r >= 0x80, r == 0, a % 16 + (15 - v % 16) + (1 - cy) > 15, parity_even(r), a - v - cy
            < 0);
    } else {
        lemma_logic_results(code, a, v, f);
    }
}

#[verifier::rlimit(30)]
proof fn lemma_logic_results(code: u8, a: u8, v: u8, f: u8)
    requires
        4 <= code < 7,
    ensures
        ({
            let (r, g) = alu(code, a, v, f);
            &&& code == 4 ==> (forall|k: nat| k < 8 ==> #[trigger] bit_at(r, k) == (bit_at(a, k) && bit_at(v, k)))
                && has_flag(g, AC_MASK) == (bit_at(a, 3) || bit_at(v, 3))
            &&& code == 5 ==> (forall|k: nat| k < 8 ==> #[trigger] bit_at(r, k) == (bit_at(a, k) != bit_at(v, k)))
                && !has_flag(g, AC_MASK)
            &&& code == 6 ==> (forall|k: nat| k < 8 ==> #[trigger] bit_at(r, k) == (bit_at(a, k) || bit_at(v, k)))
                && !has_flag(g, AC_MASK)
            &&& !has_flag(g, C_MASK)
            &&& has_flag(g, Z_MASK) == (r == 0)
            &&& has_flag(g, S_MASK) == (r >= 128)
            &&& has_flag(g, P_MASK) == parity_even(r)
        }),
{
    let r = alu(code, a, v, f).0;
    lemma_bitwise(a, v);
    if code == 4 {
        lemma_flag_bits_of(f, r >= 0x80, r == 0, (a | v) & 0x08 != 0, parity_even(r), false);
    } else {
        lemma_flag_bits_of(f, r >= 0x80, r == 0, false, parity_even(r), false);
    }
}

/// INR and DCR, on the operand `v`: the result is `v + 1` or `v - 1` modulo
/// 256, the carry is kept, the auxiliary carry is set by INR when the low
/// nibble was 15 and by DCR when it was not 0, and zero, sign and parity
/// come from the result.
pub proof fn lemma_inr_dcr_results(v: u8, f: u8)
    ensures
        inr(v, f).0 == (v + 1) % 256,
        dcr(v, f).0 == (v + 255) % 256,
        has_flag(inr(v, f).1, C_MASK) == has_flag(f, C_MASK),
        has_flag(dcr(v, f).1, C_MASK) == has_flag(f, C_MASK),
        has_flag(inr(v, f).1, AC_MASK) == (v % 16 == 15),
        has_flag(dcr(v, f).1, AC_MASK) == (v % 16 != 0),
        has_flag(inr(v, f).1, Z_MASK) == (v == 255),
        has_flag(dcr(v, f).1, Z_MASK) == (v == 1),
        has_flag(inr(v, f).1, S_MASK) == bit_at(inr(v, f).0, 7),
        has_flag(dcr(v, f).1, S_MASK) == bit_at(dcr(v, f).0, 7),
        has_flag(inr(v, f).1, P_MASK) == (set_bits(inr(v, f).0) % 2 == 0),
        has_flag(dcr(v, f).1, P_MASK) == (set_bits(dcr(v, f).0) % 2 == 0),
{
    let i = inr(v, f).0;
    let d = dcr(v, f).0;
    lemma_bits_of(i);
    lemma_bits_of(d);
    let c = has_flag(f, C_MASK);
    lemma_flag_bits_of(f, i >= 0x80, i == 0, v % 16 == 15, parity_even(i), c);
    lemma_flag_bits_of(f, d >= 0x80, d == 0, v % 16 != 0, parity_even(d), c);
}

/// Operand of an accumulator or increment opcode by its three-bit code: the
/// register that the disassembly names, or for M the byte at HL.
pub open spec fn named_operand(c: CpuState, b: BusView, code: u8) -> u8 {
    if code == 6 {
        bus_read(b, c.regs.hl())
    } else {
        named_register(c.regs, reg_name(code))
    }
}

/// Each accumulator opcode, on a register or M (0x80 - 0xBF) or on an
/// immediate byte (0xC6 - 0xFE), computes the operation its opcode block
/// names on the accumulator `a` and its operand `v`: ADD and ADI give
/// `a + v`, ADC and ACI add the carry too, SUB and SUI give `a - v`, SBB
/// and SBI subtract the carry too, ANA, XRA and ORA (ANI, XRI, ORI) combine
/// the bits, and CMP and CPI keep `a`; the carry is the carry out of the
/// sum or the borrow of the difference, and the bitwise ones clear it.
#[verifier::rlimit(40)]
pub proof fn lemma_alu_steps(c: CpuState, b: BusView, input: u8)
    requires
        !c.halt,
        0x80 <= bus_read(b, c.pc) < 0xC0 || (bus_read(b, c.pc) >= 0xC0 && bus_read(b, c.pc) % 8 == 6),
    ensures
        ({
            let op = bus_read(b, c.pc);
            let imm = op >= 0xC0;
            let v = if imm { bus_read(b, c.pc.wrapping_add(1)) } else { named_operand(c, b, op % 8) };
            let block = op / 8 % 8;
            let (r, b2) = step_spec(c, b, input);
            let a = c.regs.A;
            let x = r.regs.A;
            let cy: int = if has_flag(c.flags, C_MASK) { 1 } else { 0 };
            let carry = has_flag(r.flags, C_MASK);
            &&& block == 0 ==> x == (a + v) % 256 && carry == (a + v > 255)
            &&& block == 1 ==> x == (a + v + cy) % 256 && carry == (a + v + cy > 255)
            &&& block == 2 ==> x == (a - v + 256) % 256 && carry == (a < v)
            &&& block == 3 ==> x == (a - v - cy + 512) % 256 && carry == (a < v + cy)
            &&& block == 4 ==> (forall|k: nat| k < 8 ==> #[trigger] bit_at(x, k) == (bit_at(a, k) && bit_at(v, k)))
                && !carry
            &&& block == 5 ==> (forall|k: nat| k < 8 ==> #[trigger] bit_at(x, k) == (bit_at(a, k) != bit_at(v, k)))
                && !carry
            &&& block == 6 ==> (forall|k: nat| k < 8 ==> #[trigger] bit_at(x, k) == (bit_at(a, k) || bit_at(v, k)))
                && !carry
            &&& block == 7 ==> x == a && carry == (a < v) && has_flag(r.flags, Z_MASK) == (a == v)
            &&& r.regs == (Registers { A: x, ..c.regs })
            &&& b2 == b
            &&& r.pc == c.pc.wrapping_add(if imm { 2u16 } else { 1u16 })
        }),
{
    reveal(exec_op);
    let op = bus_read(b, c.pc);
    let c1 = tick(skip(c, 1), 4);
    if op % 8 != 6 {
        lemma_named_reg8(c.regs, op % 8);
    }
    let v = if op >= 0xC0 { bus_read(b, c.pc.wrapping_add(1)) } else { named_operand(c, b, op % 8) };
    lemma_alu_results(op / 8 % 8, c.regs.A, v, c.flags);
    if op >= 0xC0 {
        assert(step_spec(c, b, input) == exec_high(op, c1, b, input));
    } else {
        assert(step_spec(c, b, input) == exec_alu(op, c1, b));
    }
}

/// INR and DCR (0x04 and 0x05 plus eight times the register code) step the
/// register that the disassembly names, or the byte at HL for M, up or down
/// by one modulo 256, keep the carry, and leave every other register alone.
#[verifier::rlimit(40)]
pub proof fn lemma_inr_dcr_steps(c: CpuState, b: BusView, input: u8)
    requires
        !c.halt,
        bus_read(b, c.pc) < 0x40,
        bus_read(b, c.pc) % 8 == 4 || bus_read(b, c.pc) % 8 == 5,
    ensures
        ({
            let op = bus_read(b, c.pc);
            let d = op / 8 % 8;
            let v = named_operand(c, b, d);
            let w: int = if op % 8 == 4 { (v + 1) % 256 } else { (v + 255) % 256 };
            let (r, b2) = step_spec(c, b, input);
            &&& d == 6 ==> b2 == bus_write(b, c.regs.hl(), w as u8) && r.regs == c.regs
            &&& d != 6 ==> b2 == b && named_register(r.regs, reg_name(d)) == w && forall|n: Seq<char>|
                is_register_name(n) && n != reg_name(d) ==> #[trigger] named_register(r.regs, n)
                    == named_register(c.regs, n)
            &&& has_flag(r.flags, C_MASK) == has_flag(c.flags, C_MASK)
            &&& r.pc == c.pc.wrapping_add(1)
        }),
{
    reveal(exec_op);
    let op = bus_read(b, c.pc);
    let d = op / 8 % 8;
    let c1 = tick(skip(c, 1), 4);
    assert(step_spec(c, b, input) == exec_low(op, c1, b));
    let v = named_operand(c, b, d);
    lemma_inr_dcr_results(v, c.flags);
    if d != 6 {
        lemma_named_reg8(c.regs, d);
        let w = if op % 8 == 4 { inr(v, c.flags).0 } else { dcr(v, c.flags).0 };
        lemma_named_with_reg8(c.regs, d, w);
    }
}

/// Condition of three-bit code `code`, read off the flags it names: NZ, Z,
/// NC, C, PO, PE, P, M.
pub open spec fn condition_holds(code: u8, f: u8) -> bool {
    let flag = if code / 2 == 0 {
        has_flag(f, Z_MASK)
    } else if code / 2 == 1 {
        has_flag(f, C_MASK)
    } else if code / 2 == 2 {
        has_flag(f, P_MASK)
    } else {
        has_flag(f, S_MASK)
    };
    // Even codes test for the flag clear, odd codes for it set.
    flag == (code % 2 == 1)
}

/// Little-endian word in the two bytes at `addr` and the next address.
pub open spec fn word_at_bus(b: BusView, addr: u16) -> int {
    bus_read(b, addr) as int + 256 * bus_read(b, addr.wrapping_add(1)) as int
}

/// The bus after pushing `val`: its low byte two below `sp`, its high byte
/// one below.
pub open spec fn after_push(b: BusView, sp: u16, val: int) -> BusView {
    bus_write(bus_write(b, sp.wrapping_sub(2), (val % 256) as u8), sp.wrapping_sub(1), (val / 256) as u8)
}

/// Jumps, calls, returns and restarts: JMP and Jcc go to the address after
/// the opcode when their condition holds; CALL and Ccc also push the
/// address of the next instruction; RET and Rcc pop the program counter;
/// RST n calls address 8n; PCHL jumps to HL. A branch that is not taken
/// moves on to the next instruction. Each takes its 8080 cycle count.
#[verifier::rlimit(60)]
pub proof fn lemma_branch_steps(c: CpuState, b: BusView, input: u8)
    requires
        !c.halt,
        bus_read(b, c.pc) >= 0xC0,
    ensures
        ({
            let op = bus_read(b, c.pc);
            let y = op % 8;
            let d = op / 8 % 8;
            let (r, b2) = step_spec(c, b, input);
            let pc1 = c.pc.wrapping_add(1);
            let target = word_at_bus(b, pc1);
            let next3 = (c.pc + 3) % 65536;
            let holds = condition_holds(d, c.flags);
            let popped = word_at_bus(b, c.sp);
            &&& op == 0xC3 ==> r.pc == target && r.sp == c.sp && b2 == b && r.cycles == c.cycles + 10
            &&& y == 2 ==> r.pc == (if holds { target } else { next3 }) && r.sp == c.sp && b2 == b
                && r.cycles == c.cycles + 10
            &&& op == 0xCD ==> r.pc == target && r.sp == c.sp.wrapping_sub(2) && b2 == after_push(b, c.sp, next3)
                && r.cycles == c.cycles + 17
            &&& y == 4 && holds ==> r.pc == target && r.sp == c.sp.wrapping_sub(2) && b2 == after_push(
                b,
                c.sp,
                next3,
            ) && r.cycles == c.cycles + 17
            &&& y == 4 && !holds ==> r.pc == next3 && r.sp == c.sp && b2 == b && r.cycles == c.cycles + 11
            &&& op == 0xC9 ==> r.pc == popped && r.sp == c.sp.wrapping_add(2) && b2 == b && r.cycles == c.cycles
                + 10
            &&& y == 0 && holds ==> r.pc == popped && r.sp == c.sp.wrapping_add(2) && b2 == b && r.cycles
                == c.cycles + 11
            &&& y == 0 && !holds ==> r.pc == pc1 && r.sp == c.sp && b2 == b && r.cycles == c.cycles + 5
            &&& y == 7 ==> r.pc == 8 * d && r.sp == c.sp.wrapping_sub(2) && b2 == after_push(b, c.sp, pc1 as int)
                && r.cycles == c.cycles + 11
            &&& op == 0xE9 ==> r.pc == c.regs.H * 256 + c.regs.L && r.sp == c.sp && b2 == b && r.cycles
                == c.cycles + 5
            &&& (y == 0 || y == 2 || y == 4 || y == 7 || op == 0xC3 || op == 0xCD || op == 0xC9 || op == 0xE9)
                ==> r.regs == c.regs && r.flags == c.flags
        }),
{
    reveal(exec_op);
    let op = bus_read(b, c.pc);
    let c1 = tick(skip(c, 1), 4);
    let pc1 = c.pc.wrapping_add(1);
    assert(step_spec(c, b, input) == exec_high(op, c1, b, input));
    lemma_pair_value(bus_read(b, pc1.wrapping_add(1)), bus_read(b, pc1));
    lemma_pair_value(bus_read(b, c.sp.wrapping_add(1)), bus_read(b, c.sp));
    lemma_pair_value(c.regs.H, c.regs.L);
    assert(pc1.wrapping_add(2) as int == (c.pc + 3) % 65536);
    assert(c.sp.wrapping_sub(2).wrapping_add(1) == c.sp.wrapping_sub(1));
}

proof fn lemma_pair_value(hi: u8, lo: u8)
    ensures
        pair(hi, lo) as int == lo + 256 * hi,
{
}

/// Value of register pair `p` by its two-bit code: BC, DE, HL, SP.
pub open spec fn pair_of(c: CpuState, p: u8) -> int {
    if p == 0 {
        c.regs.B * 256 + c.regs.C
    } else if p == 1 {
        c.regs.D * 256 + c.regs.E
    } else if p == 2 {
        c.regs.H * 256 + c.regs.L
    } else {
        c.sp as int
    }
}

/// LXI, INX, DCX and DAD on the register pair of the opcode's upper two bits
/// (BC, DE, HL, SP): LXI loads the word after the opcode, INX and DCX step
/// the pair by one modulo 65536, DAD adds the pair to HL and sets the carry
/// when the sum passes 65535. Every other pair and the accumulator are
/// kept, and only DAD touches the condition bits, and only the carry.
pub proof fn lemma_pair_steps(c: CpuState, b: BusView, input: u8)
    requires
        !c.halt,
        bus_read(b, c.pc) < 0x40,
        bus_read(b, c.pc) % 8 == 1 || bus_read(b, c.pc) % 8 == 3,
    ensures
        ({
            let op = bus_read(b, c.pc);
            let p = op / 16 % 4;
            let (r, b2) = step_spec(c, b, input);
            let keeps_others = forall|q: u8| q < 4 && q != p ==> #[trigger] pair_of(r, q) == pair_of(c, q);
            &&& op % 16 == 1 ==> pair_of(r, p) == word_at_bus(b, c.pc.wrapping_add(1)) && keeps_others
                && r.flags == c.flags
            &&& op % 16 == 3 ==> pair_of(r, p) == (pair_of(c, p) + 1) % 65536 && keeps_others && r.flags
                == c.flags
            &&& op % 16 == 11 ==> pair_of(r, p) == (pair_of(c, p) + 65535) % 65536 && keeps_others && r.flags
                == c.flags
            &&& op % 16 == 9 ==> {
                &&& pair_of(r, 2) == (pair_of(c, 2) + pair_of(c, p)) % 65536
                &&& has_flag(r.flags, C_MASK) == (pair_of(c, 2) + pair_of(c, p) > 65535)
                &&& r.flags & !C_MASK == c.flags & !C_MASK
                &&& pair_of(r, 0) == pair_of(c, 0) && pair_of(r, 1) == pair_of(c, 1) && r.sp == c.sp
            }
            &&& r.regs.A == c.regs.A
            &&& b2 == b
        }),
{
    let op = bus_read(b, c.pc);
    if op % 16 == 1 {
        lemma_lxi_step(c, b, input);
    } else if op % 16 == 3 {
        lemma_inx_step(c, b, input);
    } else if op % 16 == 11 {
        lemma_dcx_step(c, b, input);
    } else {
        lemma_dad_step(c, b, input);
    }
}

#[verifier::rlimit(40)]
proof fn lemma_lxi_step(c: CpuState, b: BusView, input: u8)
    requires
        !c.halt,
        bus_read(b, c.pc) < 0x40,
        bus_read(b, c.pc) % 16 == 1,
    ensures
        ({
            let op = bus_read(b, c.pc);
            let p = op / 16 % 4;
            let (r, b2) = step_spec(c, b, input);
            &&& pair_of(r, p) == word_at_bus(b, c.pc.wrapping_add(1))
            &&& forall|q: u8| q < 4 && q != p ==> #[trigger] pair_of(r, q) == pair_of(c, q)
            &&& r.flags == c.flags
            &&& r.regs.A == c.regs.A
            &&& b2 == b
        }),
{
    reveal(exec_op);
    let op = bus_read(b, c.pc);
    let p = op / 16 % 4;
    let c1 = tick(skip(c, 1), 4);
    let pc1 = c.pc.wrapping_add(1);
    assert(step_spec(c, b, input) == exec_low(op, c1, b));
    lemma_get_rp_pair(c, p);
    lemma_get_rp_pair(c, 2);
    lemma_pair_value(bus_read(b, pc1.wrapping_add(1)), bus_read(b, pc1));
    lemma_set_rp_pair(skip(c1, 2), p, bus_read16(b, pc1));
}

#[verifier::rlimit(40)]
proof fn lemma_inx_step(c: CpuState, b: BusView, input: u8)
    requires
        !c.halt,
        bus_read(b, c.pc) < 0x40,
        bus_read(b, c.pc) % 16 == 3,
    ensures
        ({
            let op = bus_read(b, c.pc);
            let p = op / 16 % 4;
            let (r, b2) = step_spec(c, b, input);
            &&& pair_of(r, p) == (pair_of(c, p) + 1) % 65536
            &&& forall|q: u8| q < 4 && q != p ==> #[trigger] pair_of(r, q) == pair_of(c, q)
            &&& r.flags == c.flags
            &&& r.regs.A == c.regs.A
            &&& b2 == b
        }),
{
    reveal(exec_op);
    let op = bus_read(b, c.pc);
    let p = op / 16 % 4;
    let c1 = tick(skip(c, 1), 4);
    let pc1 = c.pc.wrapping_add(1);
    assert(step_spec(c, b, input) == exec_low(op, c1, b));
    lemma_get_rp_pair(c, p);
    lemma_get_rp_pair(c, 2);
    let g = get_rp(c1, p);
    lemma_get_rp_pair(c1, p);
    assert(g as int == pair_of(c, p));
    let w = g.wrapping_add(1);
    assert(w as int == (pair_of(c, p) + 1) % 65536);
    assert(step_spec(c, b, input).0 == tick(set_rp(c1, p, w), 1));
    lemma_set_rp_pair(c1, p, w);
}

#[verifier::rlimit(40)]
proof fn lemma_dcx_step(c: CpuState, b: BusView, input: u8)
    requires
        !c.halt,
        bus_read(b, c.pc) < 0x40,
        bus_read(b, c.pc) % 16 == 11,
    ensures
        ({
            let op = bus_read(b, c.pc);
            let p = op / 16 % 4;
            let (r, b2) = step_spec(c, b, input);
            &&& pair_of(r, p) == (pair_of(c, p) + 65535) % 65536
            &&& forall|q: u8| q < 4 && q != p ==> #[trigger] pair_of(r, q) == pair_of(c, q)
            &&& r.flags == c.flags
            &&& r.regs.A == c.regs.A
            &&& b2 == b
        }),
{
    reveal(exec_op);
    let op = bus_read(b, c.pc);
    let p = op / 16 % 4;
    let c1 = tick(skip(c, 1), 4);
    let pc1 = c.pc.wrapping_add(1);
    assert(step_spec(c, b, input) == exec_low(op, c1, b));
    lemma_get_rp_pair(c, p);
    lemma_get_rp_pair(c, 2);
    let g = get_rp(c1, p);
    lemma_get_rp_pair(c1, p);
    assert(g as int == pair_of(c, p));
    let w = g.wrapping_sub(1);
    assert(w as int == (pair_of(c, p) + 65535) % 65536);
    assert(step_spec(c, b, input).0 == tick(set_rp(c1, p, w), 1));
    lemma_set_rp_pair(c1, p, w);
}

#[verifier::rlimit(40)]
proof fn lemma_dad_step(c: CpuState, b: BusView, input: u8)
    requires
        !c.halt,
        bus_read(b, c.pc) < 0x40,
        bus_read(b, c.pc) % 16 == 9,
    ensures
        ({
            let op = bus_read(b, c.pc);
            let p = op / 16 % 4;
            let (r, b2) = step_spec(c, b, input);
            &&& pair_of(r, 2) == (pair_of(c, 2) + pair_of(c, p)) % 65536
            &&& has_flag(r.flags, C_MASK) == (pair_of(c, 2) + pair_of(c, p) > 65535)
            &&& r.flags & !C_MASK == c.flags & !C_MASK
            &&& pair_of(r, 0) == pair_of(c, 0) && pair_of(r, 1) == pair_of(c, 1) && r.sp == c.sp
            &&& r.regs.A == c.regs.A
            &&& b2 == b
        }),
{
    reveal(exec_op);
    let op = bus_read(b, c.pc);
    let p = op / 16 % 4;
    let c1 = tick(skip(c, 1), 4);
    let pc1 = c.pc.wrapping_add(1);
    assert(step_spec(c, b, input) == exec_low(op, c1, b));
    lemma_get_rp_pair(c, p);
    lemma_get_rp_pair(c, 2);
    lemma_set_rp_pair(c1, 2, ((c.regs.hl() + get_rp(c, p)) % 65536) as u16);
    crate::cpu::registers::lemma_flag_write_read(c.flags, pair_of(c, 2) + pair_of(c, p) > 65535);
}

proof fn lemma_get_rp_pair(c: CpuState, p: u8)
    requires
        p < 4,
    ensures
        get_rp(c, p) as int == pair_of(c, p),
{
    lemma_pair_value(c.regs.B, c.regs.C);
    lemma_pair_value(c.regs.D, c.regs.E);
    lemma_pair_value(c.regs.H, c.regs.L);
}

proof fn lemma_set_rp_pair(c: CpuState, p: u8, v: u16)
    requires
        p < 4,
    ensures
        pair_of(set_rp(c, p, v), p) == v,
        forall|q: u8| q < 4 && q != p ==> #[trigger] pair_of(set_rp(c, p, v), q) == pair_of(c, q),
        set_rp(c, p, v).regs.A == c.regs.A,
        set_rp(c, p, v).flags == c.flags,
        set_rp(c, p, v).pc == c.pc,
        set_rp(c, p, v).cycles == c.cycles,
{
}

/// PUSH and POP of the pair named by the opcode's upper two bits (BC, DE,
/// HL, and for the last the accumulator with the condition bits): PUSH puts
/// the pair's high byte just below the stack pointer and its low byte below
/// that; POP loads the pair from the two bytes at the stack pointer, low
/// byte first, and for PSW keeps the five flags of the low byte with bit 1
/// set and bits 3 and 5 clear.
#[verifier::rlimit(60)]
pub proof fn lemma_push_pop_steps(c: CpuState, b: BusView, input: u8)
    requires
        !c.halt,
        bus_read(b, c.pc) >= 0xC0,
        bus_read(b, c.pc) % 16 == 5 || bus_read(b, c.pc) % 16 == 1,
    ensures
        ({
            let op = bus_read(b, c.pc);
            let p = op / 16 % 4;
            let (r, b2) = step_spec(c, b, input);
            let popped = word_at_bus(b, c.sp);
            let lo = (popped % 256) as u8;
            &&& op % 16 == 5 && p < 3 ==> b2 == after_push(b, c.sp, pair_of(c, p))
            &&& op % 16 == 5 && p == 3 ==> b2 == after_push(b, c.sp, c.regs.A * 256 + c.flags)
            &&& op % 16 == 5 ==> r.sp == c.sp.wrapping_sub(2) && r.regs == c.regs && r.flags == c.flags
            &&& op % 16 == 1 && p < 3 ==> pair_of(r, p) == popped && (forall|q: u8|
                q < 3 && q != p ==> #[trigger] pair_of(r, q) == pair_of(c, q)) && r.regs.A == c.regs.A && r.flags
                == c.flags
            &&& op % 16 == 1 && p == 3 ==> {
                &&& r.regs == (Registers { A: (popped / 256) as u8, ..c.regs })
                &&& has_flag(r.flags, C_MASK) == bit_at(lo, 0)
                &&& has_flag(r.flags, P_MASK) == bit_at(lo, 2)
                &&& has_flag(r.flags, AC_MASK) == bit_at(lo, 4)
                &&& has_flag(r.flags, Z_MASK) == bit_at(lo, 6)
                &&& has_flag(r.flags, S_MASK) == bit_at(lo, 7)
                &&& r.flags & 0x2A == 0x02
            }
            &&& op % 16 == 1 ==> r.sp == c.sp.wrapping_add(2) && b2 == b
            &&& r.pc == c.pc.wrapping_add(1)
        }),
{
    reveal(exec_op);
    let op = bus_read(b, c.pc);
    let p = op / 16 % 4;
    let c1 = tick(skip(c, 1), 4);
    assert(step_spec(c, b, input) == exec_high(op, c1, b, input));
    assert(c.sp.wrapping_sub(2).wrapping_add(1) == c.sp.wrapping_sub(1));
    lemma_pair_value(bus_read(b, c.sp.wrapping_add(1)), bus_read(b, c.sp));
    lemma_pair_value(c.regs.A, c.flags);
    if p < 3 {
        lemma_get_rp_pair(c, p);
        lemma_set_rp_pair(crate::cpu::semantics::pop_sp(c1), p, bus_read16(b, c.sp));
    }
    lemma_psw_bits(bus_read(b, c.sp));
}

proof fn lemma_psw_bits(lo: u8)
    ensures
        has_flag(psw_flags(lo), C_MASK) == bit_at(lo, 0),
        has_flag(psw_flags(lo), P_MASK) == bit_at(lo, 2),
        has_flag(psw_flags(lo), AC_MASK) == bit_at(lo, 4),
        has_flag(psw_flags(lo), Z_MASK) == bit_at(lo, 6),
        has_flag(psw_flags(lo), S_MASK) == bit_at(lo, 7),
        psw_flags(lo) & 0x2A == 0x02,
{
    lemma2_to64();
    let f = psw_flags(lo);
    assert({
        &&& (f & 0x01 != 0) == (lo / 1 % 2 == 1)
        &&& (f & 0x04 != 0) == (lo / 4 % 2 == 1)
        &&& (f & 0x10 != 0) == (lo / 16 % 2 == 1)
        &&& (f & 0x40 != 0) == (lo / 64 % 2 == 1)
        &&& (f & 0x80 != 0) == (lo / 128 % 2 == 1)
        &&& f & 0x2A == 0x02
    }) by (bit_vector)
        requires
            f == (lo & 0xD7) | 0x02,
    ;
}

/// XCHG swaps DE and HL; XTHL swaps HL with the word on top of the stack,
/// L with the byte at SP and H with the byte above; SPHL loads SP from HL.
/// None of them touches the accumulator, the condition bits or BC.
#[verifier::rlimit(60)]
pub proof fn lemma_exchange_steps(c: CpuState, b: BusView, input: u8)
    requires
        !c.halt,
        bus_read(b, c.pc) == 0xEB || bus_read(b, c.pc) == 0xE3 || bus_read(b, c.pc) == 0xF9,
    ensures
        ({
            let op = bus_read(b, c.pc);
            let (r, b2) = step_spec(c, b, input);
            &&& op == 0xEB ==> pair_of(r, 1) == pair_of(c, 2) && pair_of(r, 2) == pair_of(c, 1) && r.sp == c.sp
                && b2 == b
            &&& op == 0xE3 ==> pair_of(r, 2) == word_at_bus(b, c.sp) && b2 == bus_write(
                bus_write(b, c.sp, c.regs.L),
                c.sp.wrapping_add(1),
                c.regs.H,
            ) && r.sp == c.sp && pair_of(r, 1) == pair_of(c, 1)
            &&& op == 0xF9 ==> r.sp == pair_of(c, 2) && r.regs == c.regs && b2 == b
            &&& pair_of(r, 0) == pair_of(c, 0) && r.regs.A == c.regs.A && r.flags == c.flags
            &&& r.pc == c.pc.wrapping_add(1)
        }),
{
    reveal(exec_op);
    let op = bus_read(b, c.pc);
    let c1 = tick(skip(c, 1), 4);
    assert(step_spec(c, b, input) == exec_high(op, c1, b, input));
    lemma_pair_value(bus_read(b, c.sp.wrapping_add(1)), bus_read(b, c.sp));
    lemma_pair_value(c.regs.H, c.regs.L);
    lemma_pair_value(c.regs.D, c.regs.E);
    lemma_set_rp_pair(c1, 2, bus_read16(b, c.sp));
    crate::cpu::registers::lemma_pair_round_trip(c.regs.H, c.regs.L, 0);
}

/// Loads and stores of the accumulator and HL: STAX and LDAX through BC or
/// DE, STA and LDA at the address after the opcode, SHLD and LHLD with L at
/// that address and H at the next; nothing else changes but PC.
#[verifier::rlimit(60)]
pub proof fn lemma_load_store_steps(c: CpuState, b: BusView, input: u8)
    requires
        !c.halt,
        bus_read(b, c.pc) < 0x40,
        bus_read(b, c.pc) % 8 == 2,
    ensures
        ({
            let op = bus_read(b, c.pc);
            let (r, b2) = step_spec(c, b, input);
            let t = word_at_bus(b, c.pc.wrapping_add(1)) as u16;
            let a = c.regs.A;
            &&& op == 0x02 ==> b2 == bus_write(b, pair_of(c, 0) as u16, a) && r.regs == c.regs
            &&& op == 0x12 ==> b2 == bus_write(b, pair_of(c, 1) as u16, a) && r.regs == c.regs
            &&& op == 0x0A ==> r.regs == (Registers { A: bus_read(b, pair_of(c, 0) as u16), ..c.regs }) && b2 == b
            &&& op == 0x1A ==> r.regs == (Registers { A: bus_read(b, pair_of(c, 1) as u16), ..c.regs }) && b2 == b
            &&& op == 0x32 ==> b2 == bus_write(b, t, a) && r.regs == c.regs
            &&& op == 0x3A ==> r.regs == (Registers { A: bus_read(b, t), ..c.regs }) && b2 == b
            &&& op == 0x22 ==> b2 == bus_write(bus_write(b, t, c.regs.L), t.wrapping_add(1), c.regs.H) && r.regs
                == c.regs
            &&& op == 0x2A ==> r.regs == (Registers {
                L: bus_read(b, t),
                H: bus_read(b, t.wrapping_add(1)),
                ..c.regs
            }) && b2 == b
            &&& r.flags == c.flags && r.sp == c.sp
            &&& r.pc == c.pc.wrapping_add(if op < 0x20 { 1u16 } else { 3u16 })
        }),
{
    reveal(exec_op);
    let op = bus_read(b, c.pc);
    let c1 = tick(skip(c, 1), 4);
    let pc1 = c.pc.wrapping_add(1);
    assert(step_spec(c, b, input) == exec_low(op, c1, b));
    lemma_pair_value(bus_read(b, pc1.wrapping_add(1)), bus_read(b, pc1));
    lemma_pair_value(c.regs.B, c.regs.C);
    lemma_pair_value(c.regs.D, c.regs.E);
    let w = bus_read16(b, pc1);
    lemma_pair_value(bus_read(b, w.wrapping_add(1)), bus_read(b, w));
    crate::cpu::registers::lemma_pair_round_trip(bus_read(b, w.wrapping_add(1)), bus_read(b, w), 0);
    crate::cpu::registers::lemma_pair_round_trip(c.regs.H, c.regs.L, 0);
}

/// MVI puts the byte after the opcode into the register that the
/// disassembly names by the opcode's middle bits, or at HL for M, and moves
/// PC two bytes on; every other register and the condition bits are kept.
#[verifier::rlimit(40)]
pub proof fn lemma_mvi_steps(c: CpuState, b: BusView, input: u8)
    requires
        !c.halt,
        bus_read(b, c.pc) < 0x40,
        bus_read(b, c.pc) % 8 == 6,
    ensures
        ({
            let op = bus_read(b, c.pc);
            let d = op / 8 % 8;
            let v = bus_read(b, c.pc.wrapping_add(1));
            let (r, b2) = step_spec(c, b, input);
            &&& d == 6 ==> b2 == bus_write(b, c.regs.hl(), v) && r.regs == c.regs
            &&& d != 6 ==> b2 == b && named_register(r.regs, reg_name(d)) == v && forall|n: Seq<char>|
                is_register_name(n) && n != reg_name(d) ==> #[trigger] named_register(r.regs, n)
                    == named_register(c.regs, n)
            &&& r.flags == c.flags && r.sp == c.sp
            &&& r.pc == c.pc.wrapping_add(2)
        }),
{
    reveal(exec_op);
    let op = bus_read(b, c.pc);
    let d = op / 8 % 8;
    let c1 = tick(skip(c, 1), 4);
    assert(step_spec(c, b, input) == exec_low(op, c1, b));
    if d != 6 {
        lemma_named_with_reg8(c.regs, d, bus_read(b, c.pc.wrapping_add(1)));
    }
}

/// IN loads the handler's answer into the accumulator; EI and DI set and
/// clear the interrupt enable; HLT halts exactly when interrupts are
/// enabled; NOP only moves PC on. None of them touches the bus.
#[verifier::rlimit(40)]
pub proof fn lemma_control_steps(c: CpuState, b: BusView, input: u8)
    requires
        !c.halt,
    ensures
        ({
            let op = bus_read(b, c.pc);
            let (r, b2) = step_spec(c, b, input);
            &&& op == 0xDB ==> r.regs == (Registers { A: input, ..c.regs }) && r.pc == c.pc.wrapping_add(2)
                && b2 == b && r.flags == c.flags
            &&& op == 0xD3 ==> r.regs == c.regs && r.pc == c.pc.wrapping_add(2) && b2 == b
            &&& op == 0xFB ==> r == (CpuState { ime: true, pc: c.pc.wrapping_add(1), cycles: c.cycles + 4, ..c })
                && b2 == b
            &&& op == 0xF3 ==> r == (CpuState { ime: false, pc: c.pc.wrapping_add(1), cycles: c.cycles + 4, ..c })
                && b2 == b
            &&& op == 0x76 ==> r == (CpuState { halt: c.ime, pc: c.pc.wrapping_add(1), cycles: c.cycles + 7, ..c })
                && b2 == b
            &&& op == 0x00 ==> r == (CpuState { pc: c.pc.wrapping_add(1), cycles: c.cycles + 4, ..c }) && b2 == b
        }),
{
    reveal(exec_op);
}

/// Every opcode takes its 8080 number of clock cycles: 4 for register
/// operations, rotations, NOP, XCHG, EI and DI; 5 for MOV between
/// registers, INR, DCR, INX, DCX, SPHL and PCHL; 7 for operations through
/// M or on an immediate byte, MVI to a register, STAX, LDAX and HLT; 10 for
/// MVI M, INR M, DCR M, LXI, DAD, jumps, RET, POP, IN and OUT; 11 for PUSH
/// and RST; 13 for STA and LDA; 16 for SHLD and LHLD; 17 for CALL; 18 for
/// XTHL; conditional calls take 17 and conditional returns 11 when taken,
/// 11 and 5 when not.
#[verifier::rlimit(60)]
pub proof fn lemma_cycle_counts(c: CpuState, b: BusView, input: u8)
    requires
        !c.halt,
    ensures
        ({
            let op = bus_read(b, c.pc);
            let y = op % 8;
            let d = op / 8 % 8;
            let n = step_spec(c, b, input).0.cycles - c.cycles;
            let m = y == 6 || (0x40 <= op < 0x80 && d == 6);
            let holds = condition_holds(d, c.flags);
            &&& 0x40 <= op < 0x80 && op != 0x76 ==> n == (if m { 7int } else { 5 })
            &&& op == 0x76 ==> n == 7
            &&& 0x80 <= op < 0xC0 ==> n == (if m { 7int } else { 4 })
            &&& op < 0x40 && y == 0 ==> n == 4
            &&& op < 0x40 && y == 1 ==> n == 10
            &&& (op == 0x02 || op == 0x12 || op == 0x0A || op == 0x1A) ==> n == 7
            &&& (op == 0x22 || op == 0x2A) ==> n == 16
            &&& (op == 0x32 || op == 0x3A) ==> n == 13
            &&& op < 0x40 && y == 3 ==> n == 5
            &&& op < 0x40 && (y == 4 || y == 5) ==> n == (if d == 6 { 10int } else { 5 })
            &&& op < 0x40 && y == 6 ==> n == (if d == 6 { 10int } else { 7 })
            &&& op < 0x40 && y == 7 ==> n == 4
            &&& op >= 0xC0 && y == 0 ==> n == (if holds { 11int } else { 5 })
            &&& op >= 0xC0 && y == 1 && d % 2 == 0 ==> n == 10
            &&& (op == 0xC9 || op == 0xD9) ==> n == 10
            &&& (op == 0xE9 || op == 0xF9) ==> n == 5
            &&& op >= 0xC0 && y == 2 ==> n == 10
            &&& (op == 0xC3 || op == 0xCB || op == 0xD3 || op == 0xDB) ==> n == 10
            &&& op == 0xE3 ==> n == 18
            &&& (op == 0xEB || op == 0xF3 || op == 0xFB) ==> n == 4
            &&& op >= 0xC0 && y == 4 ==> n == (if holds { 17int } else { 11 })
            &&& op >= 0xC0 && y == 5 && d % 2 == 0 ==> n == 11
            &&& op >= 0xC0 && y == 5 && d % 2 == 1 ==> n == 17
            &&& op >= 0xC0 && y == 6 ==> n == 7
            &&& op >= 0xC0 && y == 7 ==> n == 11
        }),
{
    reveal(exec_op);
    let op = bus_read(b, c.pc);
    let c1 = tick(skip(c, 1), 4);
    if op >= 0xC0 {
        assert(step_spec(c, b, input) == exec_high(op, c1, b, input));
    }
}

} // verus!
