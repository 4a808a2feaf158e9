//! The CPU's cross-instruction properties, on concrete programs.

use emulator::cpu::cpu::{init, read_instruction};
use emulator::cpu::{Bus, Cpu};
use emulator::interrupt::Int;
use emulator::io::IOHandler;
use emulator::memory::Memory;
use emulator::video::Video;

struct NoIO;

impl IOHandler for NoIO {}

/// Runs `n` steps of the program loaded at 0 and returns the cycles of each.
fn run(cpu: &mut Cpu, memory: &mut Memory, n: usize) -> Vec<usize> {
    let mut ints = Int::new();
    let mut video = Video::new();
    let mut io = NoIO;
    let mut out = Vec::new();
    for _ in 0..n {
        out.push(cpu.step(&mut Bus {
            memory: &mut *memory,
            interrupts: &mut ints,
            video: &mut video,
            io: &mut io,
            has_mirrors: false,
            mirror_mask: 0,
        }));
    }
    out
}

#[test]
fn cpu_cannot_write_rom() {
    let mut memory = Memory::new(Some((0x0000, 0x00FF)));
    // MVI A,0x99 ; STA 0x0000 ; LXI SP,0x0004 ; PUSH B (into 0x0002/0x0003)
    memory.load_binary(&[0x3E, 0x99, 0x32, 0x00, 0x00, 0x31, 0x04, 0x00, 0xC5], 0);
    let mut cpu = Cpu::new();
    run(&mut cpu, &mut memory, 4);
    assert_eq!(memory.read(0x0000), 0x3E);
    assert_eq!(memory.read(0x0002), 0x32);
    assert_eq!(memory.read(0x0003), 0x00);
}

#[test]
fn psw_keeps_fixed_bits() {
    let mut memory = Memory::new(None);
    // LXI SP,0x1000 ; LXI B,0x12FF ; PUSH B ; POP PSW ; PUSH PSW ; POP D
    memory.load_binary(&[0x31, 0x00, 0x10, 0x01, 0xFF, 0x12, 0xC5, 0xF1, 0xF5, 0xD1], 0);
    let mut cpu = Cpu::new();
    run(&mut cpu, &mut memory, 6);
    assert_eq!(cpu.get_register("D"), 0x12);
    assert_eq!(cpu.get_register("E"), 0xD7);
}

#[test]
fn call_then_ret_resumes() {
    let mut memory = Memory::new(None);
    // 0: LXI SP,0x1000 ; 3: CALL 0x0010 ; 6: NOP ... 0x10: RET
    memory.load_binary(&[0x31, 0x00, 0x10, 0xCD, 0x10, 0x00, 0x00], 0);
    memory.write(0x0010, 0xC9);
    let mut cpu = Cpu::new();
    let cycles = run(&mut cpu, &mut memory, 3);
    assert_eq!(cpu.get_pc(), 0x0006);
    assert_eq!(cycles, vec![10, 17, 10]);
    assert_eq!(memory.read(0x0FFE), 0x06);
    assert_eq!(memory.read(0x0FFF), 0x00);
}

#[test]
fn conditional_cycle_counts() {
    let mut memory = Memory::new(None);
    // LXI SP,0x1000 ; XRA A (Z set) ; CNZ 0x20 (not taken) ; RNZ (not taken) ;
    // CZ 0x20 (taken) ; at 0x20: RZ (taken)
    memory.load_binary(&[0x31, 0x00, 0x10, 0xAF, 0xC4, 0x20, 0x00, 0xC0, 0xCC, 0x20, 0x00], 0);
    memory.write(0x0020, 0xC8);
    let mut cpu = Cpu::new();
    let cycles = run(&mut cpu, &mut memory, 6);
    assert_eq!(cycles, vec![10, 4, 11, 5, 17, 11]);
    assert_eq!(cpu.get_pc(), 0x000B);
}

#[test]
fn inx_then_dcx_restores() {
    let mut memory = Memory::new(None);
    // LXI D,0xFFFF ; INX D ; DCX D
    memory.load_binary(&[0x11, 0xFF, 0xFF, 0x13, 0x1B], 0);
    let mut cpu = Cpu::new();
    run(&mut cpu, &mut memory, 2);
    assert_eq!(cpu.get_register_pair("DE"), 0x0000);
    run(&mut cpu, &mut memory, 1);
    assert_eq!(cpu.get_register_pair("DE"), 0xFFFF);
}

#[test]
fn daa_adjusts_both_digits() {
    let mut memory = Memory::new(None);
    // MVI A,0x9A ; DAA : low 0xA > 9 -> +6 = 0xA0, high 0xA > 9 -> +0x60 = 0x00, carry
    memory.load_binary(&[0x3E, 0x9A, 0x27], 0);
    let mut cpu = Cpu::new();
    run(&mut cpu, &mut memory, 2);
    assert_eq!(cpu.get_register("A"), 0x00);
}

/// Handler that answers IN with the port number plus one and records OUT.
struct Ports {
    written: Vec<(u8, u8)>,
}

impl IOHandler for Ports {
    fn read_port(&self, port: u8) -> u8 {
        port.wrapping_add(1)
    }
    fn write_port(&mut self, port: u8, value: u8) {
        self.written.push((port, value));
    }
}

/// Runs `n` steps with the `Ports` handler and returns the cycles of each.
fn run_with_ports(cpu: &mut Cpu, memory: &mut Memory, ports: &mut Ports, n: usize) -> Vec<usize> {
    let mut ints = Int::new();
    let mut video = Video::new();
    let mut out = Vec::new();
    for _ in 0..n {
        out.push(cpu.step(&mut Bus {
            memory: &mut *memory,
            interrupts: &mut ints,
            video: &mut video,
            io: &mut *ports,
            has_mirrors: false,
            mirror_mask: 0,
        }));
    }
    out
}

#[test]
fn in_and_out_go_through_the_handler() {
    let mut memory = Memory::new(None);
    // MVI A,0x5A ; OUT 0x03 ; IN 0x06 ; OUT 0x02
    memory.load_binary(&[0x3E, 0x5A, 0xD3, 0x03, 0xDB, 0x06, 0xD3, 0x02], 0);
    let mut cpu = Cpu::new();
    let mut ports = Ports { written: Vec::new() };
    let cycles = run_with_ports(&mut cpu, &mut memory, &mut ports, 4);
    assert_eq!(cycles, vec![7, 10, 10, 10]);
    assert_eq!(cpu.get_register("A"), 0x07);
    assert_eq!(ports.written, vec![(0x03, 0x5A), (0x02, 0x07)]);
    assert_eq!(cpu.get_pc(), 8);
}

#[test]
fn exchanges_swap_pairs() {
    let mut memory = Memory::new(None);
    // LXI SP,0x1000 ; LXI D,0x1122 ; LXI H,0x3344 ; XCHG ; LXI B,0x5566 ;
    // PUSH B ; XTHL ; SPHL
    memory.load_binary(
        &[0x31, 0x00, 0x10, 0x11, 0x22, 0x11, 0x21, 0x44, 0x33, 0xEB, 0x01, 0x66, 0x55, 0xC5, 0xE3, 0xF9],
        0,
    );
    let mut cpu = Cpu::new();
    let cycles = run(&mut cpu, &mut memory, 5);
    assert_eq!(cycles[3], 4);
    assert_eq!(cpu.get_register_pair("DE"), 0x3344);
    assert_eq!(cpu.get_register_pair("HL"), 0x1122);
    let cycles = run(&mut cpu, &mut memory, 2);
    assert_eq!(cycles, vec![11, 18]);
    assert_eq!(cpu.get_register_pair("HL"), 0x5566);
    assert_eq!(memory.read(0x0FFE), 0x22);
    assert_eq!(memory.read(0x0FFF), 0x11);
    let cycles = run(&mut cpu, &mut memory, 1);
    assert_eq!(cycles, vec![5]);
    // SPHL: the next push lands just below 0x5566.
    memory.write(0x0010, 0xC5);
    run(&mut cpu, &mut memory, 1);
    assert_eq!(memory.read(0x5565), 0x55);
    assert_eq!(memory.read(0x5564), 0x66);
}

#[test]
fn pchl_and_hlt_cycle_counts() {
    let mut memory = Memory::new(None);
    // LXI H,0x0010 ; PCHL ; ... 0x10: HLT
    memory.load_binary(&[0x21, 0x10, 0x00, 0xE9], 0);
    memory.write(0x0010, 0x76);
    let mut cpu = Cpu::new();
    let cycles = run(&mut cpu, &mut memory, 3);
    assert_eq!(cycles, vec![10, 5, 7]);
    assert_eq!(cpu.get_pc(), 0x0011);
    assert!(!cpu.is_halted());
}

#[test]
fn ei_then_hlt_halts_and_di_does_not() {
    let mut memory = Memory::new(None);
    // EI ; DI ; HLT ; EI ; HLT
    memory.load_binary(&[0xFB, 0xF3, 0x76, 0xFB, 0x76], 0);
    let mut cpu = Cpu::new();
    let cycles = run(&mut cpu, &mut memory, 3);
    assert_eq!(cycles, vec![4, 4, 7]);
    assert!(!cpu.is_halted());
    let cycles = run(&mut cpu, &mut memory, 3);
    assert_eq!(cycles, vec![4, 7, 1]);
    assert!(cpu.is_halted());
    assert_eq!(cpu.get_pc(), 5);
}

/// Flags that PUSH PSW shows after the program, read through POP B.
fn flags_after(program: &[u8]) -> u8 {
    let mut memory = Memory::new(None);
    let mut code = vec![0x31, 0x00, 0x10];
    code.extend_from_slice(program);
    code.extend_from_slice(&[0xF5, 0xC1]);
    memory.load_binary(&code, 0);
    let mut cpu = Cpu::new();
    while (cpu.get_pc() as usize) < code.len() {
        run(&mut cpu, &mut memory, 1);
    }
    cpu.get_register("C")
}

#[test]
fn auxiliary_carry_of_subtraction() {
    // MVI A,0x10 ; SUI 0x01 : no carry out of bit 3 of 0x10 + 0xFE + 1.
    assert_eq!(flags_after(&[0x3E, 0x10, 0xD6, 0x01]) & 0x10, 0);
    // MVI A,0x03 ; SUI 0x01 : carry out of bit 3.
    assert_eq!(flags_after(&[0x3E, 0x03, 0xD6, 0x01]) & 0x10, 0x10);
    // MVI A,0x03 ; CPI 0x01 compares the same way.
    assert_eq!(flags_after(&[0x3E, 0x03, 0xFE, 0x01]) & 0x10, 0x10);
}

#[test]
fn auxiliary_carry_of_and() {
    // MVI A,0x08 ; ANI 0x00 : bit 3 of an operand sets it, the result is 0.
    let f = flags_after(&[0x3E, 0x08, 0xE6, 0x00]);
    assert_eq!(f & 0x10, 0x10);
    assert_eq!(f & 0x40, 0x40);
    // MVI A,0x07 ; ANI 0x70 : neither operand has bit 3.
    assert_eq!(flags_after(&[0x3E, 0x07, 0xE6, 0x70]) & 0x10, 0);
}

#[test]
fn auxiliary_carry_of_decrement() {
    // MVI A,0x10 ; DCR A : low nibble 0, no auxiliary carry.
    assert_eq!(flags_after(&[0x3E, 0x10, 0x3D, 0x00]) & 0x10, 0);
    // MVI A,0x11 ; DCR A : low nibble not 0.
    assert_eq!(flags_after(&[0x3E, 0x11, 0x3D, 0x00]) & 0x10, 0x10);
}

#[test]
fn compare_keeps_accumulator() {
    let mut memory = Memory::new(None);
    // MVI A,0x20 ; MVI B,0x30 ; CMP B
    memory.load_binary(&[0x3E, 0x20, 0x06, 0x30, 0xB8], 0);
    let mut cpu = Cpu::new();
    run(&mut cpu, &mut memory, 3);
    assert_eq!(cpu.get_register("A"), 0x20);
    assert_eq!(flags_after(&[0x3E, 0x20, 0xFE, 0x30]) & 0x41, 0x01);
    assert_eq!(flags_after(&[0x3E, 0x30, 0xFE, 0x30]) & 0x41, 0x40);
}

#[test]
fn daa_gives_decimal_sums() {
    for (x, y, sum, carry) in [(0x38u8, 0x45u8, 0x83u8, false), (0x99, 0x01, 0x00, true), (0x55, 0x55, 0x10, true)] {
        let mut memory = Memory::new(None);
        // MVI A,x ; ADI y ; DAA
        memory.load_binary(&[0x3E, x, 0xC6, y, 0x27], 0);
        let mut cpu = Cpu::new();
        run(&mut cpu, &mut memory, 3);
        assert_eq!(cpu.get_register("A"), sum);
        assert_eq!(flags_after(&[0x3E, x, 0xC6, y, 0x27, 0x00]) & 0x01 == 0x01, carry);
    }
}

#[test]
fn push_then_pop_psw_restores() {
    let mut memory = Memory::new(None);
    // LXI SP,0x1000 ; MVI A,0x80 ; ORA A ; PUSH PSW ; POP PSW
    memory.load_binary(&[0x31, 0x00, 0x10, 0x3E, 0x80, 0xB7, 0xF5, 0xF1], 0);
    let mut cpu = Cpu::new();
    run(&mut cpu, &mut memory, 3);
    let cycles = run(&mut cpu, &mut memory, 2);
    assert_eq!(cycles, vec![11, 10]);
    assert_eq!(cpu.get_register("A"), 0x80);
    assert_eq!(cpu.get_pc(), 8);
    // The flags came back: PUSH PSW again stores the same byte.
    memory.write(0x0008, 0xF5);
    run(&mut cpu, &mut memory, 1);
    assert_eq!(memory.read(0x0FFE), 0x82);
}

#[test]
fn non_storing_opcodes_leave_memory() {
    let mut memory = Memory::new(None);
    // LXI H,0x0100 ; MOV A,M ; ADD M ; INX H ; LDA 0x0100 ; XCHG ; PCHL
    let code = [0x21, 0x00, 0x01, 0x7E, 0x86, 0x23, 0x3A, 0x00, 0x01, 0xEB, 0xE9];
    memory.load_binary(&code, 0);
    memory.write(0x0100, 0x11);
    let before: Vec<u8> = (0..0x200u16).map(|a| memory.read(a)).collect();
    let mut cpu = Cpu::new();
    run(&mut cpu, &mut memory, 7);
    let after: Vec<u8> = (0..0x200u16).map(|a| memory.read(a)).collect();
    assert_eq!(before, after);
}

#[test]
fn interpreter_checks_operands() {
    // LXI B at the very end of memory has no room for its operand.
    let mut rom = vec![0u8; 0x10000];
    rom[0] = 0xC3;
    rom[1] = 0xFF;
    rom[2] = 0xFF;
    rom[0xFFFF] = 0x01;
    let state = init(rom);
    assert!(state.can_run_next());
    let state = read_instruction(state);
    assert_eq!(state.pc, 0xFFFF);
    assert_eq!(state.next_opcode(), 0x01);
    assert!(!state.can_run_next());
}

#[test]
fn interpreter_wraps_pc() {
    let mut rom = vec![0u8; 0x10000];
    // JMP 0xFFFF ; NOP at 0xFFFF runs on to 0x0000.
    rom[0] = 0xC3;
    rom[1] = 0xFF;
    rom[2] = 0xFF;
    let state = read_instruction(read_instruction(init(rom)));
    assert_eq!(state.pc, 0x0000);
}
