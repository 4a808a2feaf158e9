use vstd::prelude::*;
use vstd::string::StrSliceExecFns;

/// Registers and condition bits.
pub mod registers;

/// Instruction implementation.
mod instructions;

/// CPU system bus.
pub mod bus;

/// What one step does, over abstract states.
pub mod semantics;

/// Properties that span instructions.
pub mod properties;

/// What single instructions do, stated on their operands.
pub mod instruction_laws;

/// Stand-alone interpreter over a flat 64 KiB memory.
pub mod cpu;

pub use bus::Bus;

use crate::io::IOHandler;
use bus::{bus_read, bus_read16, maps};
use registers::{fixed_bits_ok, ConditionBits, Registers};
use crate::memory::is_protected;
use semantics::{skip, step_maps, step_port, step_reads_port, step_spec, step_writes_port, CpuState};

verus! {

/// Name of a single register: "A", "B", "C", "D", "E", "H" or "L".
pub open spec fn is_register_name(name: Seq<char>) -> bool {
    name == seq!['A'] || name == seq!['B'] || name == seq!['C'] || name == seq!['D'] || name
        == seq!['E'] || name == seq!['H'] || name == seq!['L']
}

/// The register called `name`.
pub open spec fn named_register(r: Registers, name: Seq<char>) -> u8 {
    if name == seq!['A'] {
        r.A
    } else if name == seq!['B'] {
        r.B
    } else if name == seq!['C'] {
        r.C
    } else if name == seq!['D'] {
        r.D
    } else if name == seq!['E'] {
        r.E
    } else if name == seq!['H'] {
        r.H
    } else {
        r.L
    }
}

/// Name of a register pair: "BC", "DE" or "HL".
pub open spec fn is_pair_name(name: Seq<char>) -> bool {
    name == seq!['B', 'C'] || name == seq!['D', 'E'] || name == seq!['H', 'L']
}

/// The register pair called `name`.
pub open spec fn named_pair(r: Registers, name: Seq<char>) -> u16 {
    if name == seq!['B', 'C'] {
        r.bc()
    } else if name == seq!['D', 'E'] {
        r.de()
    } else {
        r.hl()
    }
}

/// The Intel 8080.
pub struct Cpu {
    /// Current CPU cycles.
    cycles: usize,
    halt: bool,
    ime: bool,
    pc: u16,
    sp: u16,
    registers: Registers,
    condition_bits: ConditionBits,
}

impl View for Cpu {
    type V = CpuState;

    closed spec fn view(&self) -> CpuState {
        CpuState {
            cycles: self.cycles as int,
            halt: self.halt,
            ime: self.ime,
            pc: self.pc,
            sp: self.sp,
            regs: self.registers,
            flags: self.condition_bits.bits,
        }
    }
}

impl Cpu {
    /// A CPU at reset: everything zero, only the fixed condition bit set.
    pub fn new() -> (cpu: Self)
        ensures
            cpu@ == (CpuState {
                cycles: 0,
                halt: false,
                ime: false,
                pc: 0,
                sp: 0,
                regs: Registers { A: 0, B: 0, C: 0, D: 0, E: 0, H: 0, L: 0 },
                flags: 0x02,
            }),
    {
        Self {
            cycles: 0,
            halt: false,
            ime: false,
            pc: 0,
            sp: 0,
            registers: Registers::default(),
            condition_bits: ConditionBits::default(),
        }
    }

    /// Runs one CPU step and returns the cycles it took: one cycle while
    /// halted, otherwise one instruction. IN takes the accumulator from the
    /// I/O handler's `read_port`, OUT hands it to `write_port`; no other
    /// step touches the handler. A step keeps the fixed bits of the
    /// condition register and never changes a byte of the ROM region.
    #[verifier::rlimit(30)]
    pub fn step<I: IOHandler>(&mut self, bus: &mut Bus<I>) -> (cycles: usize)
        requires
            old(bus).wf(),
            step_maps(old(self)@, old(bus)@),
            old(self)@.cycles + 18 <= usize::MAX,
        ensures
            exists|input: u8|
                {
                    &&& step_reads_port(old(self)@, old(bus)@) ==> call_ensures(
                        I::read_port,
                        (&old(bus).handler(), step_port(old(self)@, old(bus)@)),
                        input,
                    )
                    &&& (final(self)@, final(bus)@) == #[trigger] step_spec(old(self)@, old(bus)@, input)
                },
            final(bus).wf(),
            final(bus).same_devices(old(bus)),
            !step_writes_port(old(self)@, old(bus)@) ==> final(bus).io == old(bus).io,
            step_writes_port(old(self)@, old(bus)@) ==> exists|io: &mut I|
                *io == old(bus).handler() && *final(io) == final(bus).handler()
                    && #[trigger] call_ensures(
                    I::write_port,
                    (io, step_port(old(self)@, old(bus)@), old(self)@.regs.A),
                    (),
                ),
            cycles == final(self)@.cycles - old(self)@.cycles,
            fixed_bits_ok(old(self)@.flags) ==> fixed_bits_ok(final(self)@.flags),
            forall|p: u16|
                is_protected(old(bus)@.mem.rom_bounds, p) ==> #[trigger] final(bus)@.mem.bytes[p as int]
                    == old(bus)@.mem.bytes[p as int],
    {
        let start = self.cycles;
        let ghost input: u8 = 0;
        if self.halt {
            self.cycles += 1;
            assert(step_spec(old(self)@, old(bus)@, 0) == (self@, bus@));
        } else {
            // Run a single instruction.
            let v = self.run_instr(bus);
            proof {
                input = v;
            }
            assert(step_spec(old(self)@, old(bus)@, input) == (self@, bus@));
            proof {
                properties::lemma_step_cycles(old(self)@, old(bus)@, input);
            }
        }
        proof {
            if fixed_bits_ok(old(self)@.flags) {
                properties::lemma_step_keeps_fixed_bits(old(self)@, old(bus)@, input);
            }
            assert forall|p: u16| is_protected(old(bus)@.mem.rom_bounds, p) implies #[trigger] bus@.mem.bytes[p as int]
                == old(bus)@.mem.bytes[p as int] by {
                properties::lemma_step_keeps_rom(old(self)@, old(bus)@, input, p);
            }
        }
        self.cycles - start
    }

    /// Fetch a single byte at PC.
    fn fetch_u8<I: IOHandler>(&mut self, bus: &Bus<I>) -> (val: u8)
        requires
            bus.wf(),
            maps(bus@, old(self)@.pc),
        ensures
            val == bus_read(bus@, old(self)@.pc),
            final(self)@ == skip(old(self)@, 1),
    {
        let addr = self.pc;
        self.pc = addr.wrapping_add(1);
        bus.read_u8(addr)
    }

    /// Fetch two bytes at PC.
    fn fetch_u16<I: IOHandler>(&mut self, bus: &mut Bus<I>) -> (val: u16)
        requires
            old(bus).wf(),
            maps(old(bus)@, old(self)@.pc),
            maps(old(bus)@, old(self)@.pc.wrapping_add(1)),
        ensures
            val == bus_read16(old(bus)@, old(self)@.pc),
            final(self)@ == skip(old(self)@, 2),
            *final(bus) == *old(bus),
    {
        let addr = self.pc;
        self.pc = addr.wrapping_add(2);
        bus.read_u16(addr)
    }

    /// The CPU is halted (it only halts after HLT with interrupts enabled).
    pub fn is_halted(&self) -> (h: bool)
        ensures
            h == self@.halt,
    {
        self.halt
    }

    pub fn get_pc(&self) -> (pc: u16)
        ensures
            pc == self@.pc,
    {
        self.pc
    }

    pub fn set_pc(&mut self, pc: u16)
        ensures
            final(self)@ == (CpuState { pc, ..old(self)@ }),
    {
        self.pc = pc;
    }

    /// Value of the register called `reg` ("A", "B", "C", "D", "E", "H", "L").
    pub fn get_register(&self, reg: &str) -> (val: u8)
        requires
            is_register_name(reg@),
        ensures
            val == named_register(self@.regs, reg@),
    {
        let c = reg.get_char(0);
        if c == 'A' {
            self.registers.A
        } else if c == 'B' {
            self.registers.B
        } else if c == 'C' {
            self.registers.C
        } else if c == 'D' {
            self.registers.D
        } else if c == 'E' {
            self.registers.E
        } else if c == 'H' {
            self.registers.H
        } else {
            self.registers.L
        }
    }

    /// Value of the register pair called `reg_pair` ("BC", "DE", "HL").
    pub fn get_register_pair(&self, reg_pair: &str) -> (val: u16)
        requires
            is_pair_name(reg_pair@),
        ensures
            val == named_pair(self@.regs, reg_pair@),
    {
        let c = reg_pair.get_char(0);
        if c == 'B' {
            self.registers.get_bc()
        } else if c == 'D' {
            self.registers.get_de()
        } else {
            self.registers.get_hl()
        }
    }
}

} // verus!
