//! What one CPU step does, stated over the abstract state of the CPU and of
//! the bus.
use vstd::prelude::*;
use crate::cpu::bus::{bus_read, bus_read16, bus_write, bus_write16, maps, BusView};
use crate::cpu::registers::{has_flag, pair, psw_flags, put_flag, Registers, AC_MASK, C_MASK, P_MASK, S_MASK, Z_MASK};

verus! {

/// Abstract state of the CPU.
pub struct CpuState {
    /// Cycles run so far.
    pub cycles: int,
    pub halt: bool,
    /// Interrupts enabled.
    pub ime: bool,
    pub pc: u16,
    pub sp: u16,
    pub regs: Registers,
    /// Condition bits.
    pub flags: u8,
}

/// Number of bits set in `x`.
pub open spec fn popcount(x: u8) -> int {
    (x & 1) as int + ((x >> 1u8) & 1) as int + ((x >> 2u8) & 1) as int + ((x >> 3u8) & 1) as int
        + ((x >> 4u8) & 1) as int + ((x >> 5u8) & 1) as int + ((x >> 6u8) & 1) as int + ((x
        >> 7u8) & 1) as int
}

/// `x` has an even number of bits set.
pub open spec fn parity_even(x: u8) -> bool {
    popcount(x) % 2 == 0
}

/// `mask` if `on`, else 0.
pub open spec fn bit_if(on: bool, mask: u8) -> u8 {
    if on {
        mask
    } else {
        0
    }
}

/// Condition bits with the five flags given and the fixed bits of `old`.
pub open spec fn arith_flags(old: u8, s: bool, z: bool, ac: bool, p: bool, c: bool) -> u8 {
    (old & 0x2A) | bit_if(s, S_MASK) | bit_if(z, Z_MASK) | bit_if(ac, AC_MASK) | bit_if(p, P_MASK)
        | bit_if(c, C_MASK)
}

/// Flags for result `r`: sign, zero and parity from `r`, with the
/// auxiliary carry and carry given.
pub open spec fn result_flags(old: u8, r: u8, ac: bool, c: bool) -> u8 {
    arith_flags(old, r >= 0x80, r == 0, ac, parity_even(r), c)
}

/// Increment: result and flags (the carry is kept).
pub open spec fn inr(v: u8, flags: u8) -> (u8, u8) {
    let r = ((v + 1) % 256) as u8;
    (r, result_flags(flags, r, v % 16 == 15, has_flag(flags, C_MASK)))
}

/// Decrement: result and flags (the carry is kept). The auxiliary carry is
/// the carry out of bit 3 of `v + 0xFF`: set unless the low nibble was 0.
pub open spec fn dcr(v: u8, flags: u8) -> (u8, u8) {
    let r = ((v + 255) % 256) as u8;
    (r, result_flags(flags, r, v % 16 != 0, has_flag(flags, C_MASK)))
}

/// `a + v + cin`: result and flags.
pub open spec fn add8(a: u8, v: u8, cin: bool, flags: u8) -> (u8, u8) {
    let ci: int = if cin { 1 } else { 0 };
    let sum = a + v + ci;
    let r = (sum % 256) as u8;
    (r, result_flags(flags, r, a % 16 + v % 16 + ci > 15, sum > 255))
}

/// `a - v - bin`: result and flags; the carry is the borrow. The 8080
/// subtracts by adding the complement, so the auxiliary carry is the carry
/// out of bit 3 of `a + !v + !bin`.
pub open spec fn sub8(a: u8, v: u8, bin: bool, flags: u8) -> (u8, u8) {
    let bi: int = if bin { 1 } else { 0 };
    let diff = a - v - bi;
    let r = ((diff + 512) % 256) as u8;
    (r, result_flags(flags, r, a % 16 + (15 - v % 16) + (1 - bi) > 15, diff < 0))
}

/// XRA/ORA result `r`: both carries cleared.
pub open spec fn logic8(r: u8, flags: u8) -> (u8, u8) {
    (r, result_flags(flags, r, false, false))
}

/// The eight accumulator operations, by their three-bit code: ADD, ADC,
/// SUB, SBB, ANA, XRA, ORA, CMP. Gives the new accumulator and flags.
pub open spec fn alu(code: u8, a: u8, v: u8, flags: u8) -> (u8, u8) {
    let cin = has_flag(flags, C_MASK);
    if code == 0 {
        add8(a, v, false, flags)
    } else if code == 1 {
        add8(a, v, cin, flags)
    } else if code == 2 {
        sub8(a, v, false, flags)
    } else if code == 3 {
        sub8(a, v, cin, flags)
    } else if code == 4 {
        // ANA: the auxiliary carry is the OR of bit 3 of the operands.
        (a & v, result_flags(flags, a & v, (a | v) & 0x08 != 0, false))
    } else if code == 5 {
        logic8(a ^ v, flags)
    } else if code == 6 {
        logic8(a | v, flags)
    } else {
        (a, sub8(a, v, false, flags).1)
    }
}

/// Decimal adjust of the accumulator: result and flags.
pub open spec fn daa(a: u8, flags: u8) -> (u8, u8) {
    let ac = has_flag(flags, AC_MASK);
    let old_c = has_flag(flags, C_MASK);
    let low = a % 16;
    let step1 = low > 9 || ac;
    let new_ac = step1 && low + 6 > 15;
    let a1: u8 = if step1 { ((a + 6) % 256) as u8 } else { a };
    let c1 = step1 && a + 6 > 255;
    let step2 = a1 / 16 > 9 || old_c || c1;
    let a2: u8 = if step2 { ((a1 + 0x60) % 256) as u8 } else { a1 };
    let c2 = step2 && a1 + 0x60 > 255;
    (a2, result_flags(flags, a2, new_ac, c1 || c2 || old_c))
}

/// Register by its three-bit code: B, C, D, E, H, L, (M), A.
pub open spec fn reg8(r: Registers, code: u8) -> u8 {
    if code == 0 {
        r.B
    } else if code == 1 {
        r.C
    } else if code == 2 {
        r.D
    } else if code == 3 {
        r.E
    } else if code == 4 {
        r.H
    } else if code == 5 {
        r.L
    } else {
        r.A
    }
}

/// Registers with the one of code `code` set to `v`.
pub open spec fn with_reg8(r: Registers, code: u8, v: u8) -> Registers {
    if code == 0 {
        Registers { B: v, ..r }
    } else if code == 1 {
        Registers { C: v, ..r }
    } else if code == 2 {
        Registers { D: v, ..r }
    } else if code == 3 {
        Registers { E: v, ..r }
    } else if code == 4 {
        Registers { H: v, ..r }
    } else if code == 5 {
        Registers { L: v, ..r }
    } else {
        Registers { A: v, ..r }
    }
}

/// Register pair by its two-bit code: BC, DE, HL, SP.
pub open spec fn get_rp(c: CpuState, rp: u8) -> u16 {
    if rp == 0 {
        c.regs.bc()
    } else if rp == 1 {
        c.regs.de()
    } else if rp == 2 {
        c.regs.hl()
    } else {
        c.sp
    }
}

/// State with register pair `rp` (BC, DE, HL, SP) set to `v`.
pub open spec fn set_rp(c: CpuState, rp: u8, v: u16) -> CpuState {
    let hi = (v / 256) as u8;
    let lo = (v % 256) as u8;
    if rp == 0 {
        CpuState { regs: Registers { B: hi, C: lo, ..c.regs }, ..c }
    } else if rp == 1 {
        CpuState { regs: Registers { D: hi, E: lo, ..c.regs }, ..c }
    } else if rp == 2 {
        CpuState { regs: Registers { H: hi, L: lo, ..c.regs }, ..c }
    } else {
        CpuState { sp: v, ..c }
    }
}

/// Program status word: the accumulator over the condition bits.
pub open spec fn psw(c: CpuState) -> u16 {
    pair(c.regs.A, c.flags)
}

/// Condition by its three-bit code: NZ, Z, NC, C, PO, PE, P, M.
pub open spec fn cond(code: u8, flags: u8) -> bool {
    if code == 0 {
        !has_flag(flags, Z_MASK)
    } else if code == 1 {
        has_flag(flags, Z_MASK)
    } else if code == 2 {
        !has_flag(flags, C_MASK)
    } else if code == 3 {
        has_flag(flags, C_MASK)
    } else if code == 4 {
        !has_flag(flags, P_MASK)
    } else if code == 5 {
        has_flag(flags, P_MASK)
    } else if code == 6 {
        !has_flag(flags, S_MASK)
    } else {
        has_flag(flags, S_MASK)
    }
}

/// Adds `n` cycles.
pub open spec fn tick(c: CpuState, n: int) -> CpuState {
    CpuState { cycles: c.cycles + n, ..c }
}

/// Operand of code `code`: a register, or for code 6 the byte at HL.
pub open spec fn operand(c: CpuState, b: BusView, code: u8) -> u8 {
    if code == 6 {
        bus_read(b, c.regs.hl())
    } else {
        reg8(c.regs, code)
    }
}

/// Pushes `val`: the stack pointer drops by two and `val` is stored there.
pub open spec fn push(c: CpuState, b: BusView, val: u16) -> (CpuState, BusView) {
    let sp = c.sp.wrapping_sub(2);
    (CpuState { sp, ..c }, bus_write16(b, sp, val))
}

/// Value on top of the stack.
pub open spec fn top(c: CpuState, b: BusView) -> u16 {
    bus_read16(b, c.sp)
}

/// Pops: the stack pointer rises by two.
pub open spec fn pop_sp(c: CpuState) -> CpuState {
    CpuState { sp: c.sp.wrapping_add(2), ..c }
}

/// Calls `target`: pushes the program counter and jumps.
pub open spec fn call(c: CpuState, b: BusView, target: u16) -> (CpuState, BusView) {
    let (c1, b1) = push(c, b, c.pc);
    (CpuState { pc: target, ..c1 }, b1)
}

/// Returns: pops the program counter.
pub open spec fn ret(c: CpuState, b: BusView) -> CpuState {
    CpuState { pc: top(c, b), ..pop_sp(c) }
}

/// Byte after the opcode.
pub open spec fn imm8(c: CpuState, b: BusView) -> u8 {
    bus_read(b, c.pc)
}

/// Word after the opcode.
pub open spec fn imm16(c: CpuState, b: BusView) -> u16 {
    bus_read16(b, c.pc)
}

/// Skips `n` operand bytes.
pub open spec fn skip(c: CpuState, n: u16) -> CpuState {
    CpuState { pc: c.pc.wrapping_add(n), ..c }
}

/// Every address that opcode `op` reads or writes, with PC already past
/// the opcode, selects a device.
pub open spec fn exec_maps(op: u8, c: CpuState, b: BusView) -> bool {
    let y = op % 8;
    let d = op / 8 % 8;
    let imm8_ok = maps(b, c.pc);
    let imm16_ok = maps(b, c.pc) && maps(b, c.pc.wrapping_add(1));
    let w = imm16(c, b);
    let hl_ok = maps(b, c.regs.hl());
    let pop_ok = maps(b, c.sp) && maps(b, c.sp.wrapping_add(1));
    let push_ok = maps(b, c.sp.wrapping_sub(2)) && maps(b, c.sp.wrapping_sub(2).wrapping_add(1));
    if op < 0x40 {
        if y == 1 {
            // LXI reads its operand; DAD touches no memory.
            d % 2 == 0 ==> imm16_ok
        } else if y == 2 {
            if op == 0x02 || op == 0x0A {
                maps(b, c.regs.bc())
            } else if op == 0x12 || op == 0x1A {
                maps(b, c.regs.de())
            } else if op == 0x22 || op == 0x2A {
                imm16_ok && maps(b, w) && maps(b, w.wrapping_add(1))
            } else {
                imm16_ok && maps(b, w)
            }
        } else if y == 4 || y == 5 {
            d == 6 ==> hl_ok
        } else if y == 6 {
            imm8_ok && (d == 6 ==> hl_ok)
        } else {
            true
        }
    } else if op < 0x80 {
        (op != 0x76 && (d == 6 || y == 6)) ==> hl_ok
    } else if op < 0xC0 {
        y == 6 ==> hl_ok
    } else {
        if y == 0 {
            cond(d, c.flags) ==> pop_ok
        } else if y == 1 {
            (d != 5 && d != 7) ==> pop_ok
        } else if y == 2 {
            imm16_ok
        } else if y == 3 {
            if d == 0 || d == 1 {
                imm16_ok
            } else if d == 2 || d == 3 {
                imm8_ok
            } else if d == 4 {
                pop_ok
            } else {
                true
            }
        } else if y == 4 {
            imm16_ok && (cond(d, c.flags) ==> push_ok)
        } else if y == 5 {
            push_ok && (d % 2 == 1 ==> imm16_ok)
        } else if y == 6 {
            imm8_ok
        } else {
            push_ok
        }
    }
}

/// Every address that the next step reads or writes selects a device.
pub open spec fn step_maps(c: CpuState, b: BusView) -> bool {
    c.halt || (maps(b, c.pc) && exec_maps(bus_read(b, c.pc), tick(skip(c, 1), 4), b))
}

/// One CPU step: a halted CPU waits one cycle; otherwise the opcode at PC is
/// fetched (4 cycles) and executed. `input` is what the I/O handler answers
/// when the opcode is IN; no other opcode reads it.
pub open spec fn step_spec(c: CpuState, b: BusView, input: u8) -> (CpuState, BusView) {
    if c.halt {
        (tick(c, 1), b)
    } else {
        exec_op(bus_read(b, c.pc), tick(skip(c, 1), 4), b, input)
    }
}

/// The next step runs IN: it reads the input port named after the opcode.
pub open spec fn step_reads_port(c: CpuState, b: BusView) -> bool {
    !c.halt && bus_read(b, c.pc) == 0xDB
}

/// The next step runs OUT: it writes the accumulator to the port named
/// after the opcode.
pub open spec fn step_writes_port(c: CpuState, b: BusView) -> bool {
    !c.halt && bus_read(b, c.pc) == 0xD3
}

/// Port that the IN or OUT of the next step addresses.
pub open spec fn step_port(c: CpuState, b: BusView) -> u8 {
    bus_read(b, c.pc.wrapping_add(1))
}

/// Executes opcode `op`, with PC already past it.
#[verifier::opaque]
pub open spec fn exec_op(op: u8, c: CpuState, b: BusView, input: u8) -> (CpuState, BusView) {
    if op < 0x40 {
        exec_low(op, c, b)
    } else if op < 0x80 {
        exec_mov(op, c, b)
    } else if op < 0xC0 {
        exec_alu(op, c, b)
    } else {
        exec_high(op, c, b, input)
    }
}

/// MOV d,s (0x40 - 0x7F) and HLT (0x76, 7 cycles). HLT halts only while
/// interrupts are enabled.
pub open spec fn exec_mov(op: u8, c: CpuState, b: BusView) -> (CpuState, BusView) {
    let d = op / 8 % 8;
    let s = op % 8;
    if op == 0x76 {
        (tick(CpuState { halt: c.halt || c.ime, ..c }, 3), b)
    } else if d == 6 {
        (tick(c, 3), bus_write(b, c.regs.hl(), reg8(c.regs, s)))
    } else if s == 6 {
        (tick(CpuState { regs: with_reg8(c.regs, d, bus_read(b, c.regs.hl())), ..c }, 3), b)
    } else {
        (tick(CpuState { regs: with_reg8(c.regs, d, reg8(c.regs, s)), ..c }, 1), b)
    }
}

/// Accumulator operations on a register or memory (0x80 - 0xBF).
pub open spec fn exec_alu(op: u8, c: CpuState, b: BusView) -> (CpuState, BusView) {
    let s = op % 8;
    let (a, f) = alu(op / 8 % 8, c.regs.A, operand(c, b, s), c.flags);
    (tick(CpuState { regs: Registers { A: a, ..c.regs }, flags: f, ..c }, if s == 6 { 3 } else { 0 }), b)
}

/// Opcodes 0x00 - 0x3F.
pub open spec fn exec_low(op: u8, c: CpuState, b: BusView) -> (CpuState, BusView) {
    let y = op % 8;
    let d = op / 8 % 8;
    let rp = op / 16 % 4;
    let hl = c.regs.hl();
    if y == 0 {
        // NOP
        (c, b)
    } else if y == 1 {
        if d % 2 == 0 {
            // LXI rp, d16
            (tick(set_rp(skip(c, 2), rp, imm16(c, b)), 6), b)
        } else {
            // DAD rp
            let sum = hl + get_rp(c, rp);
            let c1 = set_rp(c, 2, (sum % 65536) as u16);
            (tick(CpuState { flags: put_flag(c.flags, C_MASK, sum > 65535), ..c1 }, 6), b)
        }
    } else if y == 2 {
        if op == 0x02 {
            // STAX B
            (tick(c, 3), bus_write(b, c.regs.bc(), c.regs.A))
        } else if op == 0x12 {
            // STAX D
            (tick(c, 3), bus_write(b, c.regs.de(), c.regs.A))
        } else if op == 0x22 {
            // SHLD a16
            (tick(skip(c, 2), 12), bus_write16(b, imm16(c, b), hl))
        } else if op == 0x32 {
            // STA a16
            (tick(skip(c, 2), 9), bus_write(b, imm16(c, b), c.regs.A))
        } else if op == 0x0A {
            // LDAX B
            (tick(CpuState { regs: Registers { A: bus_read(b, c.regs.bc()), ..c.regs }, ..c }, 3), b)
        } else if op == 0x1A {
            // LDAX D
            (tick(CpuState { regs: Registers { A: bus_read(b, c.regs.de()), ..c.regs }, ..c }, 3), b)
        } else if op == 0x2A {
            // LHLD a16
            (tick(set_rp(skip(c, 2), 2, bus_read16(b, imm16(c, b))), 12), b)
        } else {
            // LDA a16
            (tick(skip(CpuState { regs: Registers { A: bus_read(b, imm16(c, b)), ..c.regs }, ..c }, 2), 9), b)
        }
    } else if y == 3 {
        if d % 2 == 0 {
            // INX rp
            (tick(set_rp(c, rp, get_rp(c, rp).wrapping_add(1)), 1), b)
        } else {
            // DCX rp
            (tick(set_rp(c, rp, get_rp(c, rp).wrapping_sub(1)), 1), b)
        }
    } else if y == 4 || y == 5 {
        // INR d / DCR d
        let (r, f) = if y == 4 { inr(operand(c, b, d), c.flags) } else { dcr(operand(c, b, d), c.flags) };
        if d == 6 {
            (tick(CpuState { flags: f, ..c }, 6), bus_write(b, hl, r))
        } else {
            (tick(CpuState { regs: with_reg8(c.regs, d, r), flags: f, ..c }, 1), b)
        }
    } else if y == 6 {
        // MVI d, d8
        let v = imm8(c, b);
        if d == 6 {
            (tick(skip(c, 1), 6), bus_write(b, hl, v))
        } else {
            (tick(skip(CpuState { regs: with_reg8(c.regs, d, v), ..c }, 1), 3), b)
        }
    } else {
        (exec_misc(d, c), b)
    }
}

/// Rotations, DAA, CMA, STC and CMC by their three-bit code: new
/// accumulator and flags.
pub open spec fn misc_op(d: u8, a: u8, flags: u8) -> (u8, u8) {
    let carry = has_flag(flags, C_MASK);
    let ci: int = if carry { 1 } else { 0 };
    if d == 0 {
        // RLC
        (((a * 2) % 256 + a / 128) as u8, put_flag(flags, C_MASK, a >= 128))
    } else if d == 1 {
        // RRC
        ((a / 2 + (a % 2) * 128) as u8, put_flag(flags, C_MASK, a % 2 == 1))
    } else if d == 2 {
        // RAL
        (((a * 2) % 256 + ci) as u8, put_flag(flags, C_MASK, a >= 128))
    } else if d == 3 {
        // RAR
        ((a / 2 + ci * 128) as u8, put_flag(flags, C_MASK, a % 2 == 1))
    } else if d == 4 {
        daa(a, flags)
    } else if d == 5 {
        // CMA
        ((255 - a) as u8, flags)
    } else if d == 6 {
        // STC
        (a, put_flag(flags, C_MASK, true))
    } else {
        // CMC
        (a, put_flag(flags, C_MASK, !carry))
    }
}

/// Rotations, DAA, CMA, STC and CMC (0x07 - 0x3F in steps of 8).
pub open spec fn exec_misc(d: u8, c: CpuState) -> CpuState {
    let (a, f) = misc_op(d, c.regs.A, c.flags);
    CpuState { regs: Registers { A: a, ..c.regs }, flags: f, ..c }
}

/// Opcodes 0xC0 - 0xFF; `input` is what the I/O handler answers to IN.
pub open spec fn exec_high(op: u8, c: CpuState, b: BusView, input: u8) -> (CpuState, BusView) {
    let y = op % 8;
    let d = op / 8 % 8;
    if y == 0 {
        // Rcc
        if cond(d, c.flags) {
            (tick(ret(c, b), 7), b)
        } else {
            (tick(c, 1), b)
        }
    } else if y == 1 {
        if d % 2 == 0 {
            // POP rp (PSW for the last)
            let val = top(c, b);
            let c1 = pop_sp(c);
            if d == 6 {
                (tick(CpuState { regs: Registers { A: (val / 256) as u8, ..c1.regs }, flags: psw_flags((val % 256) as u8), ..c1 }, 6), b)
            } else {
                (tick(set_rp(c1, d / 2, val), 6), b)
            }
        } else if d == 5 {
            // PCHL
            (tick(CpuState { pc: c.regs.hl(), ..c }, 1), b)
        } else if d == 7 {
            // SPHL
            (tick(CpuState { sp: c.regs.hl(), ..c }, 1), b)
        } else {
            // RET
            (tick(ret(c, b), 6), b)
        }
    } else if y == 2 {
        // Jcc a16
        let target = imm16(c, b);
        let c1 = skip(c, 2);
        (tick(if cond(d, c.flags) { CpuState { pc: target, ..c1 } } else { c1 }, 6), b)
    } else if y == 3 {
        if d == 0 || d == 1 {
            // JMP a16
            (tick(CpuState { pc: imm16(c, b), ..c }, 6), b)
        } else if d == 2 {
            // OUT d8: only the I/O handler sees it.
            (tick(skip(c, 1), 6), b)
        } else if d == 3 {
            // IN d8
            (tick(skip(CpuState { regs: Registers { A: input, ..c.regs }, ..c }, 1), 6), b)
        } else if d == 4 {
            // XTHL: exchange HL with the top of the stack.
            (tick(set_rp(c, 2, top(c, b)), 14), bus_write16(b, c.sp, c.regs.hl()))
        } else if d == 5 {
            // XCHG: exchange HL and DE.
            (CpuState { regs: Registers { D: c.regs.H, E: c.regs.L, H: c.regs.D, L: c.regs.E, ..c.regs }, ..c }, b)
        } else if d == 6 {
            // DI
            (CpuState { ime: false, ..c }, b)
        } else {
            // EI
            (CpuState { ime: true, ..c }, b)
        }
    } else if y == 4 {
        // Ccc a16
        let target = imm16(c, b);
        let c1 = skip(c, 2);
        if cond(d, c.flags) {
            let (c2, b2) = call(c1, b, target);
            (tick(c2, 13), b2)
        } else {
            (tick(c1, 7), b)
        }
    } else if y == 5 {
        if d % 2 == 0 {
            // PUSH rp (PSW for the last)
            let val = if d == 6 { psw(c) } else { get_rp(c, d / 2) };
            let (c1, b1) = push(c, b, val);
            (tick(c1, 7), b1)
        } else {
            // CALL a16
            let (c1, b1) = call(skip(c, 2), b, imm16(c, b));
            (tick(c1, 13), b1)
        }
    } else if y == 6 {
        // Accumulator operation with an immediate byte.
        let (a, f) = alu(d, c.regs.A, imm8(c, b), c.flags);
        (tick(skip(CpuState { regs: Registers { A: a, ..c.regs }, flags: f, ..c }, 1), 3), b)
    } else {
        // RST d
        let (c1, b1) = call(c, b, ((d as int) * 8) as u16);
        (tick(c1, 7), b1)
    }
}

} // verus!
