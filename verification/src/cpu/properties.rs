//! Properties of the instruction set that hold across instructions and
//! states.
use vstd::prelude::*;
use crate::cpu::bus::{bus_read, bus_view_wf, bus_write, bus_write16, maps, real_addr, BusView};
use crate::cpu::registers::{Registers, fixed_bits_ok, has_flag, psw_flags, put_flag, AC_MASK, C_MASK, P_MASK, S_MASK, Z_MASK};
use crate::cpu::semantics::{add8, alu, arith_flags, daa, get_rp, parity_even, misc_op, psw, reg8, with_reg8, set_rp, step_reads_port, sub8, exec_alu, exec_high, exec_low, exec_mov, exec_op, skip, tick, call, pop_sp, push, ret, step_spec, top, CpuState};
use crate::memory::is_protected;
use crate::cpu::{is_register_name, named_register};
use crate::disassembler::reg_name;

verus! {

proof fn lemma_fixed_bits_of(o: u8, s: bool, z: bool, ac: bool, p: bool, c: bool, v: u8)
    ensures
        arith_flags(o, s, z, ac, p, c) & 0x2A == o & 0x2A,
        put_flag(o, C_MASK, c) & 0x2A == o & 0x2A,
        psw_flags(v) & 0x2A == 0x02,
{
    assert({
        &&& arith_flags(o, s, z, ac, p, c) & 0x2A == o & 0x2A
        &&& put_flag(o, 0x01, c) & 0x2A == o & 0x2A
        &&& psw_flags(v) & 0x2A == 0x02
    }) by (bit_vector);
}

proof fn lemma_flag_ops_keep_fixed_bits()
    ensures
        forall|o: u8, s: bool, z: bool, ac: bool, p: bool, c: bool|
            #[trigger] arith_flags(o, s, z, ac, p, c) & 0x2A == o & 0x2A,
        forall|o: u8, v: bool| #[trigger] put_flag(o, C_MASK, v) & 0x2A == o & 0x2A,
        forall|v: u8| #[trigger] psw_flags(v) & 0x2A == 0x02,
{
    assert forall|o: u8, s: bool, z: bool, ac: bool, p: bool, c: bool|
        #[trigger] arith_flags(o, s, z, ac, p, c) & 0x2A == o & 0x2A by {
        lemma_fixed_bits_of(o, s, z, ac, p, c, 0);
    }
    assert forall|o: u8, v: bool| #[trigger] put_flag(o, C_MASK, v) & 0x2A == o & 0x2A by {
        lemma_fixed_bits_of(o, false, false, false, false, v, 0);
    }
    assert forall|v: u8| #[trigger] psw_flags(v) & 0x2A == 0x02 by {
        lemma_fixed_bits_of(0, false, false, false, false, false, v);
    }
}

/// No instruction can disturb the fixed bits of the condition register:
/// bit 1 stays 1, bits 3 and 5 stay 0.
#[verifier::rlimit(30)]
pub proof fn lemma_step_keeps_fixed_bits(c: CpuState, b: BusView, input: u8)
    requires
        fixed_bits_ok(c.flags),
    ensures
        fixed_bits_ok(step_spec(c, b, input).0.flags),
{
    reveal(exec_op);
    lemma_flag_ops_keep_fixed_bits();
    if !c.halt {
        let op = bus_read(b, c.pc);
        let c1 = tick(skip(c, 1), 4);
        if op < 0x40 {
            assert(fixed_bits_ok(exec_low(op, c1, b).0.flags));
        } else if op < 0x80 {
            assert(fixed_bits_ok(exec_mov(op, c1, b).0.flags));
        } else if op < 0xC0 {
            assert(fixed_bits_ok(exec_alu(op, c1, b).0.flags));
        } else {
            assert(fixed_bits_ok(exec_high(op, c1, b, input).0.flags));
        }
    }
}

proof fn lemma_write_keeps_rom(b: BusView, addr: u16, v: u8, p: u16)
    requires
        b.mem.bytes.len() == crate::memory::MEMORY_SIZE,
        is_protected(b.mem.rom_bounds, p),
    ensures
        bus_write(b, addr, v).mem.bytes[p as int] == b.mem.bytes[p as int],
        bus_write(b, addr, v).mem.rom_bounds == b.mem.rom_bounds,
        bus_write(b, addr, v).mem.bytes.len() == crate::memory::MEMORY_SIZE,
        bus_write(b, addr, v).has_mirrors == b.has_mirrors,
        bus_write(b, addr, v).mirror_mask == b.mirror_mask,
{
    let r = real_addr(b, addr);
    if b.has_mirrors {
        assert(r <= 0xFFFF);
    }
}

proof fn lemma_write16_keeps_rom(b: BusView, addr: u16, v: u16, p: u16)
    requires
        bus_view_wf(b),
        is_protected(b.mem.rom_bounds, p),
    ensures
        bus_write16(b, addr, v).mem.bytes[p as int] == b.mem.bytes[p as int],
        bus_write16(b, addr, v).mem.rom_bounds == b.mem.rom_bounds,
{
    lemma_write_keeps_rom(b, addr, (v % 256) as u8, p);
    lemma_write_keeps_rom(bus_write(b, addr, (v % 256) as u8), addr.wrapping_add(1), (v / 256) as u8, p);
}

/// The CPU can never change a byte of the write-protected ROM region, nor
/// the region itself.
#[verifier::rlimit(30)]
pub proof fn lemma_step_keeps_rom(c: CpuState, b: BusView, input: u8, p: u16)
    requires
        bus_view_wf(b),
        is_protected(b.mem.rom_bounds, p),
    ensures
        step_spec(c, b, input).1.mem.bytes[p as int] == b.mem.bytes[p as int],
        step_spec(c, b, input).1.mem.rom_bounds == b.mem.rom_bounds,
{
    reveal(exec_op);
    assert forall|addr: u16, v: u8| #![trigger bus_write(b, addr, v)]
        bus_write(b, addr, v).mem.bytes[p as int] == b.mem.bytes[p as int]
        && bus_write(b, addr, v).mem.rom_bounds == b.mem.rom_bounds by {
        lemma_write_keeps_rom(b, addr, v, p);
    }
    assert forall|addr: u16, v: u16| #![trigger bus_write16(b, addr, v)]
        bus_write16(b, addr, v).mem.bytes[p as int] == b.mem.bytes[p as int]
        && bus_write16(b, addr, v).mem.rom_bounds == b.mem.rom_bounds by {
        lemma_write16_keeps_rom(b, addr, v, p);
    }
}

/// A step takes one cycle while halted, and from 4 to 18 cycles otherwise.
#[verifier::rlimit(30)]
pub proof fn lemma_step_cycles(c: CpuState, b: BusView, input: u8)
    ensures
        c.halt ==> step_spec(c, b, input).0.cycles == c.cycles + 1,
        !c.halt ==> c.cycles + 4 <= step_spec(c, b, input).0.cycles <= c.cycles + 18,
{
    reveal(exec_op);
}

/// What a push stores, a pop returns, and the stack pointer comes back to
/// where it was; this holds when the two stack bytes are distinct, mapped
/// and outside the ROM region.
pub proof fn lemma_push_then_pop(c: CpuState, b: BusView, val: u16)
    requires
        bus_view_wf(b),
        maps(b, c.sp.wrapping_sub(2)),
        maps(b, c.sp.wrapping_sub(2).wrapping_add(1)),
        real_addr(b, c.sp.wrapping_sub(2)) != real_addr(b, c.sp.wrapping_sub(2).wrapping_add(1)),
        !is_protected(b.mem.rom_bounds, real_addr(b, c.sp.wrapping_sub(2))),
        !is_protected(b.mem.rom_bounds, real_addr(b, c.sp.wrapping_sub(2).wrapping_add(1))),
    ensures
        ({
            let (c1, b1) = push(c, b, val);
            &&& top(c1, b1) == val
            &&& pop_sp(c1).sp == c.sp
        }),
{
    crate::cpu::bus::lemma_read16_after_write16(b, c.sp.wrapping_sub(2), val);
}

/// A call followed by a return resumes at the address after the call, with
/// the stack pointer restored (same conditions on the stack bytes).
pub proof fn lemma_call_then_ret(c: CpuState, b: BusView, target: u16)
    requires
        bus_view_wf(b),
        maps(b, c.sp.wrapping_sub(2)),
        maps(b, c.sp.wrapping_sub(2).wrapping_add(1)),
        real_addr(b, c.sp.wrapping_sub(2)) != real_addr(b, c.sp.wrapping_sub(2).wrapping_add(1)),
        !is_protected(b.mem.rom_bounds, real_addr(b, c.sp.wrapping_sub(2))),
        !is_protected(b.mem.rom_bounds, real_addr(b, c.sp.wrapping_sub(2).wrapping_add(1))),
    ensures
        ({
            let (c1, b1) = call(c, b, target);
            &&& c1.pc == target
            &&& ret(c1, b1).pc == c.pc
            &&& ret(c1, b1).sp == c.sp
        }),
{
    lemma_push_then_pop(c, b, c.pc);
}

/// The byte holds two decimal digits, one per nibble.
pub open spec fn is_bcd(x: u8) -> bool {
    x % 16 <= 9 && x / 16 <= 9
}

/// Number that the two decimal digits of `x` write.
pub open spec fn bcd_value(x: u8) -> int {
    (x / 16) * 10 + x % 16
}

/// DAA after adding two packed decimal bytes gives their decimal sum: the
/// two digits of the sum modulo 100, with the carry set exactly when the sum
/// reaches 100.
pub proof fn lemma_daa_after_add(x: u8, y: u8, flags: u8)
    requires
        is_bcd(x),
        is_bcd(y),
    ensures
        is_bcd(daa(add8(x, y, false, flags).0, add8(x, y, false, flags).1).0),
        bcd_value(daa(add8(x, y, false, flags).0, add8(x, y, false, flags).1).0) == (bcd_value(x)
            + bcd_value(y)) % 100,
        has_flag(daa(add8(x, y, false, flags).0, add8(x, y, false, flags).1).1, C_MASK) == (
        bcd_value(x) + bcd_value(y) >= 100),
{
    assert({
        &&& is_bcd(daa(add8(x, y, false, flags).0, add8(x, y, false, flags).1).0)
        &&& bcd_value(daa(add8(x, y, false, flags).0, add8(x, y, false, flags).1).0) == (bcd_value(x)
            + bcd_value(y)) % 100
        &&& has_flag(daa(add8(x, y, false, flags).0, add8(x, y, false, flags).1).1, C_MASK) == (
        bcd_value(x) + bcd_value(y) >= 100)
    }) by (bit_vector)
        requires
            is_bcd(x),
            is_bcd(y),
    ;
}

pub(crate) proof fn lemma_flag_bits_of(o: u8, s: bool, z: bool, ac: bool, p: bool, c: bool)
    ensures
        has_flag(arith_flags(o, s, z, ac, p, c), Z_MASK) == z,
        has_flag(arith_flags(o, s, z, ac, p, c), C_MASK) == c,
        has_flag(arith_flags(o, s, z, ac, p, c), S_MASK) == s,
        has_flag(arith_flags(o, s, z, ac, p, c), AC_MASK) == ac,
        has_flag(arith_flags(o, s, z, ac, p, c), P_MASK) == p,
{
    assert(has_flag(arith_flags(o, s, z, ac, p, c), 0x40) == z && has_flag(arith_flags(o, s, z, ac, p, c), 0x01)
        == c && has_flag(arith_flags(o, s, z, ac, p, c), 0x80) == s && has_flag(arith_flags(o, s, z, ac, p, c), 0x10)
        == ac && has_flag(arith_flags(o, s, z, ac, p, c), 0x04) == p) by (bit_vector);
}

/// CMP and CPI leave the accumulator as it was; they set the zero flag
/// exactly when the accumulator equals the operand, and the carry exactly
/// when it is below it.
pub proof fn lemma_compare(a: u8, v: u8, flags: u8)
    ensures
        alu(7, a, v, flags).0 == a,
        has_flag(alu(7, a, v, flags).1, Z_MASK) == (a == v),
        has_flag(alu(7, a, v, flags).1, C_MASK) == (a < v),
{
    let r = sub8(a, v, false, flags).0;
    lemma_flag_bits_of(flags, r >= 0x80, r == 0, a % 16 + (15 - v % 16) + 1 > 15, parity_even(r), a - v < 0);
}

/// Opcodes that write memory: STAX, SHLD, STA, INR M, DCR M, MVI M,
/// MOV M,r, XTHL, and those that push (Ccc, PUSH, CALL, RST).
pub open spec fn writes_memory(op: u8) -> bool {
    ||| op == 0x02 || op == 0x12 || op == 0x22 || op == 0x32
    ||| op == 0x34 || op == 0x35 || op == 0x36
    ||| 0x70 <= op <= 0x77 && op != 0x76
    ||| op == 0xE3
    ||| op >= 0xC0 && (op % 8 == 4 || op % 8 == 5 || op % 8 == 7)
}

/// A step that runs no storing opcode leaves memory and video RAM as they
/// were; so does a halted step.
#[verifier::rlimit(30)]
pub proof fn lemma_step_frame(c: CpuState, b: BusView, input: u8)
    requires
        c.halt || !writes_memory(bus_read(b, c.pc)),
    ensures
        step_spec(c, b, input).1 == b,
{
    reveal(exec_op);
    if !c.halt {
        let op = bus_read(b, c.pc);
        let c1 = tick(skip(c, 1), 4);
        if op < 0x40 {
            lemma_low_frame(op, c1, b);
        } else if op < 0x80 {
            assert(exec_mov(op, c1, b).1 == b);
        } else if op < 0xC0 {
            assert(exec_alu(op, c1, b).1 == b);
        } else {
            lemma_high_frame(op, c1, b, input);
        }
    }
}

#[verifier::rlimit(30)]
proof fn lemma_low_frame(op: u8, c: CpuState, b: BusView)
    requires
        op < 0x40,
        !writes_memory(op),
    ensures
        exec_low(op, c, b).1 == b,
{
}

#[verifier::rlimit(30)]
proof fn lemma_high_frame(op: u8, c: CpuState, b: BusView, input: u8)
    requires
        op >= 0xC0,
        !writes_memory(op),
    ensures
        exec_high(op, c, b, input).1 == b,
{
}

/// Value that PUSH of pair `rp` (BC, DE, HL, PSW) stores.
pub open spec fn pushed_value(c: CpuState, rp: u8) -> u16 {
    if rp == 3 {
        psw(c)
    } else {
        get_rp(c, rp)
    }
}

#[verifier::rlimit(30)]
proof fn lemma_push_step(c: CpuState, b: BusView, rp: u8, input: u8)
    requires
        rp < 4,
        !c.halt,
        bus_read(b, c.pc) == 0xC5 + rp * 16,
    ensures
        step_spec(c, b, input) == (CpuState {
            sp: c.sp.wrapping_sub(2),
            pc: c.pc.wrapping_add(1),
            cycles: c.cycles + 11,
            ..c
        }, bus_write16(b, c.sp.wrapping_sub(2), pushed_value(c, rp))),
{
    reveal(exec_op);
}

#[verifier::rlimit(30)]
proof fn lemma_pop_step(c: CpuState, b: BusView, rp: u8, input: u8)
    requires
        rp < 4,
        !c.halt,
        bus_read(b, c.pc) == 0xC1 + rp * 16,
    ensures
        step_spec(c, b, input).1 == b,
        step_spec(c, b, input).0 == (if rp == 3 {
            CpuState {
                regs: Registers { A: (top(c, b) / 256) as u8, ..c.regs },
                flags: psw_flags((top(c, b) % 256) as u8),
                sp: c.sp.wrapping_add(2),
                pc: c.pc.wrapping_add(1),
                cycles: c.cycles + 10,
                ..c
            }
        } else {
            set_rp(
                CpuState { sp: c.sp.wrapping_add(2), pc: c.pc.wrapping_add(1), cycles: c.cycles + 10, ..c },
                rp,
                top(c, b),
            )
        }),
{
    reveal(exec_op);
}

/// PUSH of a register pair (or PSW) followed by POP of the same pair brings
/// the CPU back to where it was, two bytes further on and 21 cycles later,
/// with the pushed bytes left on the bus. This holds when the two stack
/// bytes are mapped, distinct, writable and apart from the POP opcode, and
/// for PSW when the fixed bits of the condition register are in place.
pub proof fn lemma_push_then_pop_steps(c: CpuState, b: BusView, rp: u8, in1: u8, in2: u8)
    requires
        bus_view_wf(b),
        rp < 4,
        !c.halt,
        bus_read(b, c.pc) == 0xC5 + rp * 16,
        bus_read(b, c.pc.wrapping_add(1)) == 0xC1 + rp * 16,
        maps(b, c.pc.wrapping_add(1)),
        maps(b, c.sp.wrapping_sub(2)),
        maps(b, c.sp.wrapping_sub(2).wrapping_add(1)),
        real_addr(b, c.sp.wrapping_sub(2)) != real_addr(b, c.sp.wrapping_sub(2).wrapping_add(1)),
        real_addr(b, c.sp.wrapping_sub(2)) != real_addr(b, c.pc.wrapping_add(1)),
        real_addr(b, c.sp.wrapping_sub(2).wrapping_add(1)) != real_addr(b, c.pc.wrapping_add(1)),
        !is_protected(b.mem.rom_bounds, real_addr(b, c.sp.wrapping_sub(2))),
        !is_protected(b.mem.rom_bounds, real_addr(b, c.sp.wrapping_sub(2).wrapping_add(1))),
        rp == 3 ==> fixed_bits_ok(c.flags),
    ensures
        ({
            let (c1, b1) = step_spec(c, b, in1);
            let (c2, b2) = step_spec(c1, b1, in2);
            &&& c2 == (CpuState { pc: c.pc.wrapping_add(2), cycles: c.cycles + 21, ..c })
            &&& b2 == b1
        }),
{
    let lo = c.sp.wrapping_sub(2);
    let val = pushed_value(c, rp);
    lemma_push_step(c, b, rp, in1);
    let c1 = CpuState { sp: lo, pc: c.pc.wrapping_add(1), cycles: c.cycles + 11, ..c };
    let b1 = bus_write16(b, lo, val);
    // The POP opcode is still in place after the push.
    crate::cpu::bus::lemma_read_other_after_write(b, lo, (val % 256) as u8, c.pc.wrapping_add(1));
    crate::cpu::bus::lemma_read_other_after_write(
        bus_write(b, lo, (val % 256) as u8),
        lo.wrapping_add(1),
        (val / 256) as u8,
        c.pc.wrapping_add(1),
    );
    assert(bus_read(b1, c1.pc) == 0xC1 + rp * 16);
    lemma_pop_step(c1, b1, rp, in2);
    lemma_push_then_pop(c, b, val);
    assert(top(c1, b1) == val);
    assert(c1.sp.wrapping_add(2) == c.sp);
    crate::cpu::registers::lemma_pair_round_trip(0, 0, val);
    if rp == 3 {
        crate::cpu::registers::lemma_pair_round_trip(c.regs.A, c.flags, val);
        lemma_psw_flags_fixed(c.flags);
    } else if rp == 0 {
        crate::cpu::registers::lemma_pair_round_trip(c.regs.B, c.regs.C, val);
    } else if rp == 1 {
        crate::cpu::registers::lemma_pair_round_trip(c.regs.D, c.regs.E, val);
    } else {
        crate::cpu::registers::lemma_pair_round_trip(c.regs.H, c.regs.L, val);
    }
}

proof fn lemma_psw_flags_fixed(f: u8)
    requires
        fixed_bits_ok(f),
    ensures
        psw_flags(f) == f,
{
    assert(f & 0x2A == 0x02 ==> (f & 0xD7) | 0x02 == f) by (bit_vector);
}

/// Only IN reads the I/O handler: every other step is the same whatever the
/// handler would answer.
#[verifier::rlimit(30)]
pub proof fn lemma_step_ignores_input(c: CpuState, b: BusView, in1: u8, in2: u8)
    requires
        !step_reads_port(c, b),
    ensures
        step_spec(c, b, in1) == step_spec(c, b, in2),
{
    reveal(exec_op);
    if !c.halt {
        let op = bus_read(b, c.pc);
        let c1 = tick(skip(c, 1), 4);
        if op >= 0xC0 {
            assert(exec_high(op, c1, b, in1) == exec_high(op, c1, b, in2));
        }
    }
}

/// What the accumulator rotations and carry operations do, on the old
/// accumulator `a` and carry: RLC and RRC rotate A by one bit and copy the
/// bit that wraps round into the carry; RAL and RAR rotate A through the
/// carry, which takes the bit shifted out; CMA complements A; STC sets and
/// CMC complements the carry. Each keeps the other condition bits, the
/// other registers, the stack pointer and the bus, and moves PC one byte on.
#[verifier::rlimit(30)]
pub proof fn lemma_rotations_and_carry(c: CpuState, b: BusView, input: u8)
    requires
        !c.halt,
    ensures
        ({
            let op = bus_read(b, c.pc);
            let (r, b2) = step_spec(c, b, input);
            let a = c.regs.A as int;
            let cy: int = if has_flag(c.flags, C_MASK) { 1 } else { 0 };
            let carry = has_flag(r.flags, C_MASK);
            &&& op == 0x07 ==> r.regs.A == (2 * a) % 256 + a / 128 && carry == (a >= 128)
            &&& op == 0x0F ==> r.regs.A == a / 2 + 128 * (a % 2) && carry == (a % 2 == 1)
            &&& op == 0x17 ==> r.regs.A == (2 * a) % 256 + cy && carry == (a >= 128)
            &&& op == 0x1F ==> r.regs.A == a / 2 + 128 * cy && carry == (a % 2 == 1)
            &&& op == 0x2F ==> r.regs.A == 255 - a && r.flags == c.flags
            &&& op == 0x37 ==> r.regs.A == a && carry
            &&& op == 0x3F ==> r.regs.A == a && carry == (cy == 0)
            &&& (op == 0x07 || op == 0x0F || op == 0x17 || op == 0x1F || op == 0x2F || op == 0x37
                || op == 0x3F) ==> {
                &&& r.flags & !C_MASK == c.flags & !C_MASK
                &&& r.regs == (Registers { A: r.regs.A, ..c.regs })
                &&& r.sp == c.sp
                &&& r.pc == c.pc.wrapping_add(1)
                &&& b2 == b
            }
        }),
{
    reveal(exec_op);
    let f = c.flags;
    let a = c.regs.A;
    crate::cpu::registers::lemma_flag_write_read(f, a >= 128);
    crate::cpu::registers::lemma_flag_write_read(f, a % 2 == 1);
    crate::cpu::registers::lemma_flag_write_read(f, true);
    crate::cpu::registers::lemma_flag_write_read(f, !has_flag(f, C_MASK));
}

/// RAL followed by RAR, and RAR followed by RAL, give back the accumulator
/// and every condition bit; RLC followed by RRC gives back the accumulator.
pub proof fn lemma_rotation_round_trips(a: u8, f: u8)
    ensures
        misc_op(3, misc_op(2, a, f).0, misc_op(2, a, f).1) == (a, f),
        misc_op(2, misc_op(3, a, f).0, misc_op(3, a, f).1) == (a, f),
        misc_op(1, misc_op(0, a, f).0, misc_op(0, a, f).1).0 == a,
{
    let cy = has_flag(f, C_MASK);
    let ci: int = if cy { 1 } else { 0 };
    crate::cpu::registers::lemma_flag_write_read(f, a >= 128);
    crate::cpu::registers::lemma_flag_write_read(f, a % 2 == 1);
    lemma_put_carry_back(f, a >= 128);
    lemma_put_carry_back(f, a % 2 == 1);
    let l = (((a * 2) % 256 + ci) as u8, put_flag(f, C_MASK, a >= 128));
    assert(misc_op(2, a, f) == l);
    assert(misc_op(3, l.0, l.1) == (a, f));
    let r = ((a / 2 + ci * 128) as u8, put_flag(f, C_MASK, a % 2 == 1));
    assert(misc_op(3, a, f) == r);
    assert(misc_op(2, r.0, r.1) == (a, f));
    let o = (((a * 2) % 256 + a / 128) as u8, put_flag(f, C_MASK, a >= 128));
    assert(misc_op(0, a, f) == o);
    assert(misc_op(1, o.0, o.1).0 == a);
}

proof fn lemma_put_carry_back(f: u8, v: bool)
    ensures
        put_flag(put_flag(f, C_MASK, v), C_MASK, has_flag(f, C_MASK)) == f,
{
    assert(put_flag(put_flag(f, 0x01, v), 0x01, has_flag(f, 0x01)) == f) by (bit_vector);
}

/// MOV M,r stores at HL the register that the low three bits of the opcode
/// name (0x70 B, 0x71 C, 0x72 D, 0x73 E, 0x74 H, 0x75 L, 0x77 A) and leaves
/// the CPU as it was but for PC and 7 cycles; MOV r,M loads the byte at HL
/// into the register that the middle three bits name (0x46 B, 0x4E C, 0x56
/// D, 0x5E E, 0x66 H, 0x6E L, 0x7E A) and leaves the bus alone.
#[verifier::rlimit(30)]
pub proof fn lemma_mov_memory(c: CpuState, b: BusView, input: u8)
    requires
        !c.halt,
    ensures
        ({
            let op = bus_read(b, c.pc);
            let (r, b2) = step_spec(c, b, input);
            let hl = c.regs.hl();
            let m = bus_read(b, hl);
            &&& op == 0x70 ==> b2 == bus_write(b, hl, c.regs.B)
            &&& op == 0x71 ==> b2 == bus_write(b, hl, c.regs.C)
            &&& op == 0x72 ==> b2 == bus_write(b, hl, c.regs.D)
            &&& op == 0x73 ==> b2 == bus_write(b, hl, c.regs.E)
            &&& op == 0x74 ==> b2 == bus_write(b, hl, c.regs.H)
            &&& op == 0x75 ==> b2 == bus_write(b, hl, c.regs.L)
            &&& op == 0x77 ==> b2 == bus_write(b, hl, c.regs.A)
            &&& (0x70 <= op <= 0x77 && op != 0x76) ==> r == (CpuState {
                pc: c.pc.wrapping_add(1),
                cycles: c.cycles + 7,
                ..c
            })
            &&& op == 0x46 ==> r.regs == (Registers { B: m, ..c.regs })
            &&& op == 0x4E ==> r.regs == (Registers { C: m, ..c.regs })
            &&& op == 0x56 ==> r.regs == (Registers { D: m, ..c.regs })
            &&& op == 0x5E ==> r.regs == (Registers { E: m, ..c.regs })
            &&& op == 0x66 ==> r.regs == (Registers { H: m, ..c.regs })
            &&& op == 0x6E ==> r.regs == (Registers { L: m, ..c.regs })
            &&& op == 0x7E ==> r.regs == (Registers { A: m, ..c.regs })
            &&& (op == 0x46 || op == 0x4E || op == 0x56 || op == 0x5E || op == 0x66 || op == 0x6E
                || op == 0x7E) ==> b2 == b && r.flags == c.flags && r.pc == c.pc.wrapping_add(1)
        }),
{
    reveal(exec_op);
}

proof fn lemma_letters_distinct()
    ensures
        seq!['A'] != seq!['B'],
        seq!['A'] != seq!['C'],
        seq!['A'] != seq!['D'],
        seq!['A'] != seq!['E'],
        seq!['A'] != seq!['H'],
        seq!['A'] != seq!['L'],
        seq!['B'] != seq!['C'],
        seq!['B'] != seq!['D'],
        seq!['B'] != seq!['E'],
        seq!['B'] != seq!['H'],
        seq!['B'] != seq!['L'],
        seq!['C'] != seq!['D'],
        seq!['C'] != seq!['E'],
        seq!['C'] != seq!['H'],
        seq!['C'] != seq!['L'],
        seq!['D'] != seq!['E'],
        seq!['D'] != seq!['H'],
        seq!['D'] != seq!['L'],
        seq!['E'] != seq!['H'],
        seq!['E'] != seq!['L'],
        seq!['H'] != seq!['L'],
{
    assert(seq!['A'][0] != seq!['B'][0]);
    assert(seq!['A'][0] != seq!['C'][0]);
    assert(seq!['A'][0] != seq!['D'][0]);
    assert(seq!['A'][0] != seq!['E'][0]);
    assert(seq!['A'][0] != seq!['H'][0]);
    assert(seq!['A'][0] != seq!['L'][0]);
    assert(seq!['B'][0] != seq!['C'][0]);
    assert(seq!['B'][0] != seq!['D'][0]);
    assert(seq!['B'][0] != seq!['E'][0]);
    assert(seq!['B'][0] != seq!['H'][0]);
    assert(seq!['B'][0] != seq!['L'][0]);
    assert(seq!['C'][0] != seq!['D'][0]);
    assert(seq!['C'][0] != seq!['E'][0]);
    assert(seq!['C'][0] != seq!['H'][0]);
    assert(seq!['C'][0] != seq!['L'][0]);
    assert(seq!['D'][0] != seq!['E'][0]);
    assert(seq!['D'][0] != seq!['H'][0]);
    assert(seq!['D'][0] != seq!['L'][0]);
    assert(seq!['E'][0] != seq!['H'][0]);
    assert(seq!['E'][0] != seq!['L'][0]);
    assert(seq!['H'][0] != seq!['L'][0]);
}

proof fn lemma_reg_name_letters()
    ensures
        reg_name(0) == seq!['B'],
        reg_name(1) == seq!['C'],
        reg_name(2) == seq!['D'],
        reg_name(3) == seq!['E'],
        reg_name(4) == seq!['H'],
        reg_name(5) == seq!['L'],
        reg_name(7) == seq!['A'],
{
    lemma_letters_distinct();
    reveal_strlit("B");
    reveal_strlit("C");
    reveal_strlit("D");
    reveal_strlit("E");
    reveal_strlit("H");
    reveal_strlit("L");
    reveal_strlit("A");
    assert(reg_name(0) =~= seq!['B']);
    assert(reg_name(1) =~= seq!['C']);
    assert(reg_name(2) =~= seq!['D']);
    assert(reg_name(3) =~= seq!['E']);
    assert(reg_name(4) =~= seq!['H']);
    assert(reg_name(5) =~= seq!['L']);
    assert(reg_name(7) =~= seq!['A']);
}

/// MOV between registers does what its disassembly says: the register that
/// the text names first takes the value of the register it names second,
/// every other register keeps its value, and the condition bits and the bus
/// are untouched.
#[verifier::rlimit(40)]
pub proof fn lemma_mov_registers(c: CpuState, b: BusView, input: u8)
    requires
        !c.halt,
        0x40 <= bus_read(b, c.pc) < 0x80,
        bus_read(b, c.pc) / 8 % 8 != 6,
        bus_read(b, c.pc) % 8 != 6,
    ensures
        ({
            let op = bus_read(b, c.pc);
            let (r, b2) = step_spec(c, b, input);
            &&& named_register(r.regs, reg_name(op / 8 % 8)) == named_register(c.regs, reg_name(op % 8))
            &&& forall|n: Seq<char>|
                is_register_name(n) && n != reg_name(op / 8 % 8) ==> #[trigger] named_register(r.regs, n)
                    == named_register(c.regs, n)
            &&& r.flags == c.flags
            &&& b2 == b
            &&& r.pc == c.pc.wrapping_add(1)
            &&& r.cycles == c.cycles + 5
        }),
{
    reveal(exec_op);
    let op = bus_read(b, c.pc);
    let d = op / 8 % 8;
    let sc = op % 8;
    let c1 = tick(skip(c, 1), 4);
    assert(step_spec(c, b, input) == exec_mov(op, c1, b));
    let regs = with_reg8(c.regs, d, reg8(c.regs, sc));
    assert(step_spec(c, b, input).0.regs == regs);
    lemma_named_reg8(c.regs, sc);
    lemma_named_with_reg8(c.regs, d, reg8(c.regs, sc));
}

pub(crate) proof fn lemma_named_reg8(regs: Registers, code: u8)
    requires
        code < 8,
        code != 6,
    ensures
        named_register(regs, reg_name(code)) == reg8(regs, code),
{
    lemma_reg_name_letters();
    lemma_letters_distinct();
}

pub(crate) proof fn lemma_named_with_reg8(regs: Registers, code: u8, v: u8)
    requires
        code < 8,
        code != 6,
    ensures
        named_register(with_reg8(regs, code, v), reg_name(code)) == v,
        forall|n: Seq<char>|
            is_register_name(n) && n != reg_name(code) ==> #[trigger] named_register(with_reg8(regs, code, v), n)
                == named_register(regs, n),
{
    lemma_reg_name_letters();
    lemma_letters_distinct();
}

} // verus!
