//! A simpler interpreter that owns a flat 64 KiB memory and runs the data
//! transfer, arithmetic and logic group of opcodes (0x00 - 0x7F) and JMP.
use vstd::prelude::*;
use crate::cpu::instructions::{dcr_instruction, inr_instruction, misc_instruction};
use crate::cpu::registers::{pair, put_flag, Registers, C_MASK};
use crate::cpu::bus::{bus_read, bus_read16, bus_write, BusView};
use crate::cpu::semantics::{dcr, exec_op, inr, misc_op, reg8, step_spec, with_reg8, CpuState};

pub use crate::cpu::registers::ConditionBits;

verus! {

/// Whether the interpreter runs.
#[allow(non_camel_case_types)]
#[derive(PartialEq, Eq)]
pub enum CPUState {
    RUNNING,
    HALTED,
}

/// Abstract contents of a `State`.
pub struct StateView {
    pub regs: Registers,
    pub memory: Seq<u8>,
    pub pc: u16,
    pub sp: u16,
    pub flags: u8,
    pub halted: bool,
}

/// Machine state of the interpreter.
pub struct State {
    registers: Registers,
    memory: Vec<u8>,
    pub pc: u16,
    sp: u16,
    pub(crate) condition_bits: ConditionBits,
    pub cpu_state: CPUState,
}

impl View for State {
    type V = StateView;

    closed spec fn view(&self) -> StateView {
        StateView {
            regs: self.registers,
            memory: self.memory@,
            pc: self.pc,
            sp: self.sp,
            flags: self.condition_bits.bits,
            halted: self.cpu_state == CPUState::HALTED,
        }
    }
}

/// Little-endian word at `a` and `a + 1`.
pub open spec fn word_at(m: Seq<u8>, a: int) -> u16 {
    pair(m[a + 1], m[a])
}

/// Length in bytes of instruction `op`.
pub open spec fn instr_len(op: u8) -> int {
    if op == 0x01 || op == 0x11 || op == 0x21 || op == 0x31 || op == 0x22 || op == 0x2A || op == 0x32
        || op == 0x3A || op == 0xC3 {
        3
    } else if op < 0x40 && op % 8 == 6 {
        2
    } else {
        1
    }
}

/// The interpreter knows `op`: everything below 0x80, and JMP.
pub open spec fn interpretable(op: u8) -> bool {
    op < 0x80 || op == 0xC3
}

/// The instruction at PC can run: the interpreter knows it, its operands
/// lie inside memory, and SHLD/LHLD do not reach past the last byte.
pub open spec fn can_run(s: StateView) -> bool {
    let pc = s.pc as int;
    let op = s.memory[pc];
    &&& interpretable(op)
    &&& pc + instr_len(op) <= 0x10000
    &&& (op == 0x22 || op == 0x2A) ==> word_at(s.memory, pc + 1) < 0xFFFF
}

/// Register pair by code: BC, DE, HL, SP.
pub open spec fn state_rp(s: StateView, rp: u8) -> u16 {
    if rp == 0 {
        s.regs.bc()
    } else if rp == 1 {
        s.regs.de()
    } else if rp == 2 {
        s.regs.hl()
    } else {
        s.sp
    }
}

/// State with register pair `rp` set to `v`.
pub open spec fn with_state_rp(s: StateView, rp: u8, v: u16) -> StateView {
    let hi = (v / 256) as u8;
    let lo = (v % 256) as u8;
    if rp == 0 {
        StateView { regs: Registers { B: hi, C: lo, ..s.regs }, ..s }
    } else if rp == 1 {
        StateView { regs: Registers { D: hi, E: lo, ..s.regs }, ..s }
    } else if rp == 2 {
        StateView { regs: Registers { H: hi, L: lo, ..s.regs }, ..s }
    } else {
        StateView { sp: v, ..s }
    }
}

/// Operand of code `code`: a register, or for code 6 the byte at HL.
pub open spec fn state_operand(s: StateView, code: u8) -> u8 {
    if code == 6 {
        s.memory[s.regs.hl() as int]
    } else {
        reg8(s.regs, code)
    }
}

/// One instruction of the interpreter.
pub open spec fn interpret(s: StateView) -> StateView {
    let pc = s.pc as int;
    let op = s.memory[pc];
    let next = StateView { pc: ((pc + instr_len(op)) % 0x10000) as u16, ..s };
    if op == 0xC3 {
        StateView { pc: word_at(s.memory, pc + 1), ..s }
    } else if op >= 0x40 {
        interpret_mov(op, next)
    } else {
        interpret_low(op, next, s.memory[pc + 1], word_at(s.memory, pc + 1))
    }
}

/// MOV d,s and HLT.
pub open spec fn interpret_mov(op: u8, s: StateView) -> StateView {
    let d = op / 8 % 8;
    let src = op % 8;
    if op == 0x76 {
        StateView { halted: true, ..s }
    } else if d == 6 {
        StateView { memory: s.memory.update(s.regs.hl() as int, reg8(s.regs, src)), ..s }
    } else {
        StateView { regs: with_reg8(s.regs, d, state_operand(s, src)), ..s }
    }
}

/// Opcodes 0x00 - 0x3F, with PC already past the instruction; `b1` is the
/// byte and `w` the word after the opcode.
pub open spec fn interpret_low(op: u8, s: StateView, b1: u8, w: u16) -> StateView {
    let y = op % 8;
    let d = op / 8 % 8;
    let rp = op / 16 % 4;
    let m = s.memory;
    if y == 0 {
        s
    } else if y == 1 {
        if d % 2 == 0 {
            // LXI rp, d16
            with_state_rp(s, rp, w)
        } else {
            // DAD rp
            let sum = s.regs.hl() + state_rp(s, rp);
            StateView { flags: put_flag(s.flags, C_MASK, sum > 65535), ..with_state_rp(s, 2, (sum % 65536) as u16) }
        }
    } else if y == 2 {
        if op == 0x02 {
            StateView { memory: m.update(s.regs.bc() as int, s.regs.A), ..s }
        } else if op == 0x12 {
            StateView { memory: m.update(s.regs.de() as int, s.regs.A), ..s }
        } else if op == 0x22 {
            // SHLD a16
            StateView { memory: m.update(w as int, s.regs.L).update(w + 1, s.regs.H), ..s }
        } else if op == 0x32 {
            StateView { memory: m.update(w as int, s.regs.A), ..s }
        } else if op == 0x0A {
            StateView { regs: Registers { A: m[s.regs.bc() as int], ..s.regs }, ..s }
        } else if op == 0x1A {
            StateView { regs: Registers { A: m[s.regs.de() as int], ..s.regs }, ..s }
        } else if op == 0x2A {
            // LHLD a16
            StateView { regs: Registers { L: m[w as int], H: m[w + 1], ..s.regs }, ..s }
        } else {
            StateView { regs: Registers { A: m[w as int], ..s.regs }, ..s }
        }
    } else if y == 3 {
        if d % 2 == 0 {
            with_state_rp(s, rp, state_rp(s, rp).wrapping_add(1))
        } else {
            with_state_rp(s, rp, state_rp(s, rp).wrapping_sub(1))
        }
    } else if y == 4 || y == 5 {
        let (r, f) = if y == 4 { inr(state_operand(s, d), s.flags) } else { dcr(state_operand(s, d), s.flags) };
        if d == 6 {
            StateView { memory: m.update(s.regs.hl() as int, r), flags: f, ..s }
        } else {
            StateView { regs: with_reg8(s.regs, d, r), flags: f, ..s }
        }
    } else if y == 6 {
        if d == 6 {
            StateView { memory: m.update(s.regs.hl() as int, b1), ..s }
        } else {
            StateView { regs: with_reg8(s.regs, d, b1), ..s }
        }
    } else {
        let (a, f) = misc_op(d, s.regs.A, s.flags);
        StateView { regs: Registers { A: a, ..s.regs }, flags: f, ..s }
    }
}

impl State {
    /// The memory covers the whole 64 KiB address space.
    pub open spec fn wf(&self) -> bool {
        self@.memory.len() == 0x10000
    }

    fn new() -> (s: State)
        ensures
            s.wf(),
            s@.regs == (Registers { A: 0, B: 0, C: 0, D: 0, E: 0, H: 0, L: 0 }),
            forall|i: int| 0 <= i < 0x10000 ==> #[trigger] s@.memory[i] == 0,
            s@.pc == 0,
            s@.sp == 0,
            s@.flags == 0x02,
            !s@.halted,
    {
        State {
            registers: Registers::default(),
            memory: vec![0u8; 0x10000],
            pc: 0,
            sp: 0,
            condition_bits: ConditionBits::default(),
            cpu_state: CPUState::RUNNING,
        }
    }

    /// Opcode at PC.
    pub fn next_opcode(&self) -> (op: u8)
        requires
            self.wf(),
        ensures
            op == self@.memory[self@.pc as int],
    {
        self.memory[self.pc as usize]
    }

    /// The instruction at PC can run (see `can_run`).
    pub fn can_run_next(&self) -> (r: bool)
        requires
            self.wf(),
        ensures
            r == can_run(self@),
    {
        let pc = self.pc as usize;
        let op = self.memory[pc];
        let len: usize = if op == 0x01 || op == 0x11 || op == 0x21 || op == 0x31 || op == 0x22 || op
            == 0x2A || op == 0x32 || op == 0x3A || op == 0xC3 {
            3
        } else if op < 0x40 && op % 8 == 6 {
            2
        } else {
            1
        };
        if !(op < 0x80 || op == 0xC3) || pc + len > 0x10000 {
            return false;
        }
        if op == 0x22 || op == 0x2A {
            let lo = self.memory[pc + 1];
            let hi = self.memory[pc + 2];
            proof {
                crate::cpu::registers::lemma_pair_bytes(hi, lo);
            }
            let w = ((hi as u16) << 8) | lo as u16;
            return w < 0xFFFF;
        }
        true
    }

    fn read_reg(&self, code: u8) -> (v: u8)
        requires
            code < 8,
            code != 6,
        ensures
            v == reg8(self@.regs, code),
    {
        if code == 0 {
            self.registers.B
        } else if code == 1 {
            self.registers.C
        } else if code == 2 {
            self.registers.D
        } else if code == 3 {
            self.registers.E
        } else if code == 4 {
            self.registers.H
        } else if code == 5 {
            self.registers.L
        } else {
            self.registers.A
        }
    }

    fn write_reg(&mut self, code: u8, v: u8)
        requires
            code < 8,
            code != 6,
        ensures
            final(self)@ == (StateView { regs: with_reg8(old(self)@.regs, code, v), ..old(self)@ }),
            final(self).cpu_state == old(self).cpu_state,
    {
        if code == 0 {
            self.registers.B = v;
        } else if code == 1 {
            self.registers.C = v;
        } else if code == 2 {
            self.registers.D = v;
        } else if code == 3 {
            self.registers.E = v;
        } else if code == 4 {
            self.registers.H = v;
        } else if code == 5 {
            self.registers.L = v;
        } else {
            self.registers.A = v;
        }
    }

    fn read_pair(&self, rp: u8) -> (v: u16)
        requires
            rp < 4,
        ensures
            v == state_rp(self@, rp),
    {
        if rp == 0 {
            self.registers.get_bc()
        } else if rp == 1 {
            self.registers.get_de()
        } else if rp == 2 {
            self.registers.get_hl()
        } else {
            self.sp
        }
    }

    fn write_pair(&mut self, rp: u8, v: u16)
        requires
            rp < 4,
        ensures
            final(self)@ == with_state_rp(old(self)@, rp, v),
    {
        if rp == 0 {
            self.registers.set_bc(v);
        } else if rp == 1 {
            self.registers.set_de(v);
        } else if rp == 2 {
            self.registers.set_hl(v);
        } else {
            self.sp = v;
        }
    }

    /// Operand of code `code`: a register, or for code 6 the byte at HL.
    fn read_operand(&self, code: u8) -> (v: u8)
        requires
            self.wf(),
            code < 8,
        ensures
            v == state_operand(self@, code),
    {
        if code == 6 {
            self.memory[self.registers.get_hl() as usize]
        } else {
            self.read_reg(code)
        }
    }

    /// MOV d,s and HLT.
    fn run_mov(&mut self, op: u8)
        requires
            old(self).wf(),
            0x40 <= op < 0x80,
        ensures
            final(self).wf(),
            final(self)@ == interpret_mov(op, old(self)@),
    {
        let d = op / 8 % 8;
        let s = op % 8;
        if op == 0x76 {
            // HLT
            self.cpu_state = CPUState::HALTED;
        } else if d == 6 {
            let address = self.registers.get_hl();
            let v = self.read_reg(s);
            self.memory.set(address as usize, v);
        } else {
            let v = self.read_operand(s);
            self.write_reg(d, v);
        }
    }

    /// Opcodes 0x00 - 0x3F; `b1` is the byte and `w` the word after the opcode.
    fn run_low(&mut self, op: u8, b1: u8, w: u16)
        requires
            old(self).wf(),
            op < 0x40,
            (op == 0x22 || op == 0x2A) ==> w < 0xFFFF,
        ensures
            final(self).wf(),
            final(self)@ == interpret_low(op, old(self)@, b1, w),
    {
        let y = op % 8;
        let d = op / 8 % 8;
        let rp = op / 16 % 4;
        if y == 0 {
            // NOP
        } else if y == 1 {
            if d % 2 == 0 {
                // LXI rp, d16
                self.write_pair(rp, w);
            } else {
                // DAD rp
                let hl = self.registers.get_hl();
                let other = self.read_pair(rp);
                let sum = hl as u32 + other as u32;
                self.registers.set_hl((sum % 65536) as u16);
                self.condition_bits.set_c(sum > 0xFFFF);
            }
        } else if y == 2 {
            self.run_load_store(op, w);
        } else if y == 3 {
            let v = self.read_pair(rp);
            if d % 2 == 0 {
                // INX rp
                self.write_pair(rp, v.wrapping_add(1));
            } else {
                // DCX rp
                self.write_pair(rp, v.wrapping_sub(1));
            }
        } else if y == 4 || y == 5 {
            let v = self.read_operand(d);
            let res = if y == 4 {
                inr_instruction(v, &mut self.condition_bits)
            } else {
                dcr_instruction(v, &mut self.condition_bits)
            };
            if d == 6 {
                let address = self.registers.get_hl();
                self.memory.set(address as usize, res);
            } else {
                self.write_reg(d, res);
            }
        } else if y == 6 {
            // MVI d, d8
            if d == 6 {
                let address = self.registers.get_hl();
                self.memory.set(address as usize, b1);
            } else {
                self.write_reg(d, b1);
            }
        } else {
            let a = self.registers.A;
            self.registers.A = misc_instruction(d, a, &mut self.condition_bits);
        }
    }

    /// STAX, SHLD, STA, LDAX, LHLD, LDA.
    fn run_load_store(&mut self, op: u8, w: u16)
        requires
            old(self).wf(),
            op < 0x40,
            op % 8 == 2,
            (op == 0x22 || op == 0x2A) ==> w < 0xFFFF,
        ensures
            final(self).wf(),
            final(self)@ == interpret_low(op, old(self)@, 0, w),
    {
        let address = w as usize;
        if op == 0x02 {
            let a = self.registers.get_bc();
            self.memory.set(a as usize, self.registers.A);
        } else if op == 0x12 {
            let a = self.registers.get_de();
            self.memory.set(a as usize, self.registers.A);
        } else if op == 0x22 {
            // SHLD a16
            self.memory.set(address, self.registers.L);
            self.memory.set(address + 1, self.registers.H);
        } else if op == 0x32 {
            self.memory.set(address, self.registers.A);
        } else if op == 0x0A {
            let a = self.registers.get_bc();
            self.registers.A = self.memory[a as usize];
        } else if op == 0x1A {
            let a = self.registers.get_de();
            self.registers.A = self.memory[a as usize];
        } else if op == 0x2A {
            // LHLD a16
            self.registers.L = self.memory[address];
            self.registers.H = self.memory[address + 1];
        } else {
            self.registers.A = self.memory[address];
        }
    }
}

/// A state whose memory holds `rom` from address 0 on, as much of it as fits
/// in 64 KiB, and zeros after it.
pub fn init(rom: Vec<u8>) -> (state: State)
    ensures
        state.wf(),
        forall|i: int|
            0 <= i < 0x10000 ==> #[trigger] state@.memory[i] == if i < rom@.len() {
                rom@[i]
            } else {
                0
            },
        state@.regs == (Registers { A: 0, B: 0, C: 0, D: 0, E: 0, H: 0, L: 0 }),
        state@.pc == 0,
        state@.sp == 0,
        state@.flags == 0x02,
        !state@.halted,
{
    let mut state = State::new();
    let max = state.memory.len();
    let len = if rom.len() < max {
        rom.len()
    } else {
        max
    };
    let mut i: usize = 0;
    while i < len
        invariant
            0 <= i <= len <= max,
            max == 0x10000,
            len <= rom@.len(),
            len == rom@.len() || len == 0x10000,
            state.wf(),
            state@.regs == (Registers { A: 0, B: 0, C: 0, D: 0, E: 0, H: 0, L: 0 }),
            state@.pc == 0,
            state@.sp == 0,
            state@.flags == 0x02,
            !state@.halted,
            forall|j: int|
                0 <= j < 0x10000 ==> #[trigger] state@.memory[j] == if j < i {
                    rom@[j]
                } else {
                    0
                },
        decreases len - i,
    {
        state.memory.set(i, rom[i]);
        i += 1;
    }
    state
}

/// Runs the instruction at PC and returns the new state.
pub fn read_instruction(current_state: State) -> (next: State)
    requires
        current_state.wf(),
        can_run(current_state@),
    ensures
        next.wf(),
        next@ == interpret(current_state@),
{
    let mut current_state = current_state;
    let pc = current_state.pc as usize;
    let op = current_state.memory[pc];
    if op == 0xC3 {
        // JMP a16
        let lo = current_state.memory[pc + 1];
        let hi = current_state.memory[pc + 2];
        proof {
            crate::cpu::registers::lemma_pair_bytes(hi, lo);
        }
        current_state.pc = ((hi as u16) << 8) | lo as u16;
        return current_state;
    }
    let len: usize = if op == 0x01 || op == 0x11 || op == 0x21 || op == 0x31 || op == 0x22 || op
        == 0x2A || op == 0x32 || op == 0x3A {
        3
    } else if op < 0x40 && op % 8 == 6 {
        2
    } else {
        1
    };
    let b1 = if len >= 2 {
        current_state.memory[pc + 1]
    } else {
        0
    };
    let w = if len == 3 {
        let hi = current_state.memory[pc + 2];
        proof {
            crate::cpu::registers::lemma_pair_bytes(hi, b1);
        }
        ((hi as u16) << 8) | b1 as u16
    } else {
        0
    };
    current_state.pc = ((pc + len) % 0x10000) as u16;
    if op >= 0x40 {
        current_state.run_mov(op);
    } else {
        current_state.run_low(op, b1, w);
    }
    current_state
}

/// Hypotheses under which the interpreter and the CPU start alike.
pub open spec fn alike(s: StateView, c: CpuState, b: BusView) -> bool {
    &&& s.memory.len() == 0x10000
    &&& can_run(s)
    &&& b.mem.bytes == s.memory
    &&& b.mem.rom_bounds is None
    &&& !b.has_mirrors
    &&& !c.halt
    &&& c.regs == s.regs
    &&& c.flags == s.flags
    &&& c.sp == s.sp
    &&& c.pc == s.pc
}

/// The two results agree on everything the interpreter keeps.
pub open spec fn agree(s2: StateView, r: (CpuState, BusView)) -> bool {
    &&& r.0.regs == s2.regs
    &&& r.0.flags == s2.flags
    &&& r.0.sp == s2.sp
    &&& r.0.pc == s2.pc
    &&& r.1.mem.bytes == s2.memory
}

proof fn lemma_plain_bus(b: BusView)
    requires
        !b.has_mirrors,
        b.mem.rom_bounds is None,
    ensures
        forall|a: u16| #[trigger] bus_read(b, a) == b.mem.bytes[a as int],
        forall|a: u16, v: u8| #[trigger] bus_write(b, a, v).mem.bytes == b.mem.bytes.update(a as int, v),
        forall|a: u16, v: u8| #[trigger] bus_write(b, a, v).mem.rom_bounds == b.mem.rom_bounds,
        forall|a: u16, v: u8| #[trigger] bus_write(b, a, v).has_mirrors == b.has_mirrors,
{
}

proof fn lemma_agree_mov(s: StateView, c: CpuState, b: BusView, input: u8)
    requires
        alike(s, c, b),
        0x40 <= s.memory[s.pc as int] < 0x80,
    ensures
        agree(interpret(s), step_spec(c, b, input)),
{
    reveal(exec_op);
    lemma_plain_bus(b);
}

proof fn lemma_pc_steps(pc: u16, len: int)
    requires
        1 <= len <= 3,
        pc + len <= 0x10000,
    ensures
        pc.wrapping_add(1) == (pc + 1) % 0x10000,
        len >= 2 ==> pc.wrapping_add(1) == pc + 1,
        len >= 2 ==> pc.wrapping_add(1).wrapping_add(1) == (pc + 2) % 0x10000,
        len == 3 ==> pc.wrapping_add(1).wrapping_add(1) == pc + 2,
        len == 3 ==> pc.wrapping_add(1).wrapping_add(2) == (pc + 3) % 0x10000,
{
}

#[verifier::rlimit(40)]
proof fn lemma_agree_load_store(s: StateView, c: CpuState, b: BusView, input: u8)
    requires
        alike(s, c, b),
        s.memory[s.pc as int] < 0x40,
        s.memory[s.pc as int] % 8 == 2,
    ensures
        agree(interpret(s), step_spec(c, b, input)),
{
    reveal(exec_op);
    let op = s.memory[s.pc as int];
    lemma_plain_bus(b);
    lemma_pc_steps(c.pc, instr_len(op));
    if op == 0x22 || op == 0x2A || op == 0x32 || op == 0x3A {
        let w = bus_read16(b, c.pc.wrapping_add(1));
        assert(w == word_at(s.memory, c.pc + 1));
        let b1 = bus_write(b, w, c.regs.L);
        lemma_plain_bus(b1);
        if op == 0x22 || op == 0x2A {
            assert(w.wrapping_add(1) == w + 1);
        }
    }
}

#[verifier::rlimit(40)]
proof fn lemma_agree_other_low(s: StateView, c: CpuState, b: BusView, input: u8)
    requires
        alike(s, c, b),
        s.memory[s.pc as int] < 0x40,
        s.memory[s.pc as int] % 8 != 2,
    ensures
        agree(interpret(s), step_spec(c, b, input)),
{
    reveal(exec_op);
    let op = s.memory[s.pc as int];
    lemma_plain_bus(b);
    lemma_pc_steps(c.pc, instr_len(op));
    if op % 8 == 1 && op / 8 % 2 == 0 {
        assert(bus_read16(b, c.pc.wrapping_add(1)) == word_at(s.memory, c.pc + 1));
    }
}

proof fn lemma_agree_jmp(s: StateView, c: CpuState, b: BusView, input: u8)
    requires
        alike(s, c, b),
        s.memory[s.pc as int] == 0xC3,
    ensures
        agree(interpret(s), step_spec(c, b, input)),
{
    reveal(exec_op);
    lemma_plain_bus(b);
    lemma_pc_steps(c.pc, 3);
    assert(bus_read16(b, c.pc.wrapping_add(1)) == word_at(s.memory, c.pc + 1));
}

/// On every opcode it runs (0x00 - 0x7F and JMP), this interpreter and the
/// CPU on a plain RAM bus (no mirrors, no ROM region) agree: they leave the
/// same registers, flags, stack pointer, program counter and memory. On HLT
/// they differ only in whether they halt: the interpreter always stops, the
/// CPU only with interrupts enabled.
pub proof fn lemma_interpreter_agrees_with_cpu(s: StateView, c: CpuState, b: BusView, input: u8)
    requires
        alike(s, c, b),
    ensures
        agree(interpret(s), step_spec(c, b, input)),
        interpret(s).halted == (s.halted || s.memory[s.pc as int] == 0x76),
        step_spec(c, b, input).0.halt == (s.memory[s.pc as int] == 0x76 && c.ime),
{
    reveal(exec_op);
    let op = s.memory[s.pc as int];
    lemma_plain_bus(b);
    if op == 0xC3 {
        lemma_agree_jmp(s, c, b, input);
    } else if op >= 0x40 {
        lemma_agree_mov(s, c, b, input);
    } else if op % 8 == 2 {
        lemma_agree_load_store(s, c, b, input);
    } else {
        lemma_agree_other_low(s, c, b, input);
    }
}

/// In the interpreter, MOV M,r stores at HL the register that the low three
/// bits of the opcode name (0x70 B, 0x71 C, 0x72 D, 0x73 E, 0x74 H, 0x75 L,
/// 0x77 A), and MOV r,M loads the byte at HL into the register that the
/// middle three bits name (0x46 B, 0x4E C, 0x56 D, 0x5E E, 0x66 H, 0x6E L,
/// 0x7E A); both move PC one byte on.
pub proof fn lemma_interpreter_mov_memory(s: StateView)
    requires
        s.memory.len() == 0x10000,
    ensures
        ({
            let op = s.memory[s.pc as int];
            let n = interpret(s);
            let hl = s.regs.hl() as int;
            let m = s.memory[hl];
            &&& op == 0x70 ==> n.memory == s.memory.update(hl, s.regs.B)
            &&& op == 0x71 ==> n.memory == s.memory.update(hl, s.regs.C)
            &&& op == 0x72 ==> n.memory == s.memory.update(hl, s.regs.D)
            &&& op == 0x73 ==> n.memory == s.memory.update(hl, s.regs.E)
            &&& op == 0x74 ==> n.memory == s.memory.update(hl, s.regs.H)
            &&& op == 0x75 ==> n.memory == s.memory.update(hl, s.regs.L)
            &&& op == 0x77 ==> n.memory == s.memory.update(hl, s.regs.A)
            &&& (0x70 <= op <= 0x77 && op != 0x76) ==> n.regs == s.regs && n.flags == s.flags
            &&& op == 0x46 ==> n.regs == (Registers { B: m, ..s.regs })
            &&& op == 0x4E ==> n.regs == (Registers { C: m, ..s.regs })
            &&& op == 0x56 ==> n.regs == (Registers { D: m, ..s.regs })
            &&& op == 0x5E ==> n.regs == (Registers { E: m, ..s.regs })
            &&& op == 0x66 ==> n.regs == (Registers { H: m, ..s.regs })
            &&& op == 0x6E ==> n.regs == (Registers { L: m, ..s.regs })
            &&& op == 0x7E ==> n.regs == (Registers { A: m, ..s.regs })
            &&& (op == 0x46 || op == 0x4E || op == 0x56 || op == 0x5E || op == 0x66 || op == 0x6E
                || op == 0x7E) ==> n.memory == s.memory
            &&& (0x40 <= op < 0x80) ==> n.pc == ((s.pc + 1) % 0x10000) as u16
        }),
{
}

} // verus!
