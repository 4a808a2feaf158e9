//! Diagnostic programs for the CPU, run through a small CP/M BDOS harness:
//! a call to 0x0005 with C = 9 prints the '$'-terminated string at DE, with
//! C = 2 the character in E; a jump to 0x0000 ends the program.

use emulator::cpu::{Bus, Cpu};
use emulator::interrupt::Int;
use emulator::io::IOHandler;
use emulator::memory::Memory;
use emulator::video::Video;
use std::collections::HashMap;

struct DummyIO;

impl IOHandler for DummyIO {
    fn read_port(&self, _port: u8) -> u8 {
        0xFF
    }
    fn write_port(&mut self, _port: u8, _value: u8) {}
}

fn run_cpu_test(rom: &[u8]) -> String {
    let mut output = String::new();
    let mut cpu = Cpu::new();
    let mut memory = Memory::new(None);
    let mut interrupts = Int::new();
    let mut video = Video::new();
    let mut io = DummyIO;

    // The program is loaded at 0x0100; 0x0000 - 0x00FF is the CP/M page zero.
    memory.load_binary(rom, 0x0100);
    cpu.set_pc(0x0100);
    // A RET at 0x0005 returns from a system call.
    memory.write(0x0005, 0xC9);

    let mut cycles: u64 = 0;
    let cycle_limit: u64 = 30_000_000_000;

    loop {
        // Intercept CP/M BDOS system calls.
        if cpu.get_pc() == 0x0005 {
            let c = cpu.get_register("C");
            if c == 9 {
                // Print the string at DE up to '$'.
                let mut addr = cpu.get_register_pair("DE");
                loop {
                    let char_byte = memory.read(addr);
                    if char_byte == b'$' {
                        break;
                    }
                    output.push(char_byte as char);
                    addr = addr.wrapping_add(1);
                }
            } else if c == 2 {
                // Print the character in E.
                let e = cpu.get_register("E");
                output.push(e as char);
            }
        }

        let step_cycles = cpu.step(&mut Bus {
            memory: &mut memory,
            interrupts: &mut interrupts,
            video: &mut video,
            io: &mut io,
            has_mirrors: false,
            mirror_mask: 0,
        });
        cycles += step_cycles as u64;

        // The program ends when it jumps to 0x0000 (CP/M warm boot).
        if cpu.get_pc() == 0x0000 {
            break;
        }
        if cycles > cycle_limit {
            output.push_str("\n[TEST HARNESS ERROR]: Cycle limit exceeded. Infinite loop detected.\n");
            break;
        }
    }
    output
}

// ---------------------------------------------------------------------------
// A small two-pass 8080 assembler for the diagnostic programs.

const B: u8 = 0;
const C: u8 = 1;
const D: u8 = 2;
const E: u8 = 3;
const H: u8 = 4;
const L: u8 = 5;
const M: u8 = 6;
const A: u8 = 7;

const BC: u8 = 0;
const DE: u8 = 1;
const HL: u8 = 2;
const SP: u8 = 3;
const PSW: u8 = 3;

const NZ: u8 = 0;
const Z: u8 = 1;
const NC: u8 = 2;
const CY: u8 = 3;
const PO: u8 = 4;
const PE: u8 = 5;
const P: u8 = 6;
const MI: u8 = 7;

const ADD: u8 = 0;
const ADC: u8 = 1;
const SUB: u8 = 2;
const SBB: u8 = 3;
const ANA: u8 = 4;
const XRA: u8 = 5;
const ORA: u8 = 6;
const CMP: u8 = 7;
/// Increment and decrement of the accumulator, exercised beside the eight
/// accumulator operations.
const INR: u8 = 8;
const DCR: u8 = 9;

struct Asm {
    code: Vec<u8>,
    labels: HashMap<String, u16>,
    fixups: Vec<(usize, String)>,
    counter: usize,
}

impl Asm {
    fn new() -> Self {
        Asm { code: Vec::new(), labels: HashMap::new(), fixups: Vec::new(), counter: 0 }
    }
    fn here(&self) -> u16 {
        0x0100 + self.code.len() as u16
    }
    fn fresh(&mut self, stem: &str) -> String {
        self.counter += 1;
        format!("{}_{}", stem, self.counter)
    }
    fn label(&mut self, name: &str) {
        let at = self.here();
        self.labels.insert(name.to_string(), at);
    }
    fn byte(&mut self, b: u8) {
        self.code.push(b);
    }
    fn word(&mut self, w: u16) {
        self.code.push(w as u8);
        self.code.push((w >> 8) as u8);
    }
    fn addr(&mut self, name: &str) {
        self.fixups.push((self.code.len(), name.to_string()));
        self.word(0);
    }
    fn text(&mut self, name: &str, s: &str) {
        self.label(name);
        for b in s.bytes() {
            self.byte(b);
        }
        self.byte(b'$');
    }
    fn finish(mut self) -> Vec<u8> {
        for (at, name) in &self.fixups {
            let target = *self.labels.get(name).unwrap_or_else(|| panic!("no label {}", name));
            self.code[*at] = target as u8;
            self.code[*at + 1] = (target >> 8) as u8;
        }
        self.code
    }

    fn nop(&mut self) {
        self.byte(0x00);
    }
    fn mvi(&mut self, r: u8, v: u8) {
        self.byte(0x06 | (r << 3));
        self.byte(v);
    }
    fn mov(&mut self, d: u8, s: u8) {
        self.byte(0x40 | (d << 3) | s);
    }
    fn lxi(&mut self, rp: u8, v: u16) {
        self.byte(0x01 | (rp << 4));
        self.word(v);
    }
    fn lxi_label(&mut self, rp: u8, name: &str) {
        self.byte(0x01 | (rp << 4));
        self.addr(name);
    }
    fn alu(&mut self, op: u8, r: u8) {
        self.byte(0x80 | (op << 3) | r);
    }
    fn alu_imm(&mut self, op: u8, v: u8) {
        self.byte(0xC6 | (op << 3));
        self.byte(v);
    }
    fn inr(&mut self, r: u8) {
        self.byte(0x04 | (r << 3));
    }
    fn dcr(&mut self, r: u8) {
        self.byte(0x05 | (r << 3));
    }
    fn inx(&mut self, rp: u8) {
        self.byte(0x03 | (rp << 4));
    }
    fn dcx(&mut self, rp: u8) {
        self.byte(0x0B | (rp << 4));
    }
    fn dad(&mut self, rp: u8) {
        self.byte(0x09 | (rp << 4));
    }
    fn push(&mut self, rp: u8) {
        self.byte(0xC5 | (rp << 4));
    }
    fn pop(&mut self, rp: u8) {
        self.byte(0xC1 | (rp << 4));
    }
    fn jmp(&mut self, name: &str) {
        self.byte(0xC3);
        self.addr(name);
    }
    fn jcc(&mut self, cc: u8, name: &str) {
        self.byte(0xC2 | (cc << 3));
        self.addr(name);
    }
    fn call(&mut self, name: &str) {
        self.byte(0xCD);
        self.addr(name);
    }
    fn call_abs(&mut self, addr: u16) {
        self.byte(0xCD);
        self.word(addr);
    }
    fn ccc(&mut self, cc: u8, name: &str) {
        self.byte(0xC4 | (cc << 3));
        self.addr(name);
    }
    fn ret(&mut self) {
        self.byte(0xC9);
    }
    fn rcc(&mut self, cc: u8) {
        self.byte(0xC0 | (cc << 3));
    }
    fn rst(&mut self, n: u8) {
        self.byte(0xC7 | (n << 3));
    }
    fn sta(&mut self, a: u16) {
        self.byte(0x32);
        self.word(a);
    }
    fn lda(&mut self, a: u16) {
        self.byte(0x3A);
        self.word(a);
    }
    fn shld(&mut self, a: u16) {
        self.byte(0x22);
        self.word(a);
    }
    fn lhld(&mut self, a: u16) {
        self.byte(0x2A);
        self.word(a);
    }
    fn stax(&mut self, rp: u8) {
        self.byte(0x02 | (rp << 4));
    }
    fn ldax(&mut self, rp: u8) {
        self.byte(0x0A | (rp << 4));
    }
    fn rlc(&mut self) {
        self.byte(0x07);
    }
    fn rrc(&mut self) {
        self.byte(0x0F);
    }
    fn ral(&mut self) {
        self.byte(0x17);
    }
    fn rar(&mut self) {
        self.byte(0x1F);
    }
    fn daa(&mut self) {
        self.byte(0x27);
    }
    fn cma(&mut self) {
        self.byte(0x2F);
    }
    fn stc(&mut self) {
        self.byte(0x37);
    }
    fn cmc(&mut self) {
        self.byte(0x3F);
    }
    fn pchl(&mut self) {
        self.byte(0xE9);
    }
    fn sphl(&mut self) {
        self.byte(0xF9);
    }
    fn xchg(&mut self) {
        self.byte(0xEB);
    }
    fn xthl(&mut self) {
        self.byte(0xE3);
    }
    fn ei(&mut self) {
        self.byte(0xFB);
    }
    fn di(&mut self) {
        self.byte(0xF3);
    }
    fn input(&mut self, port: u8) {
        self.byte(0xDB);
        self.byte(port);
    }
    fn output(&mut self, port: u8) {
        self.byte(0xD3);
        self.byte(port);
    }

    /// Prints the string at `name` through the BDOS.
    fn print(&mut self, name: &str) {
        self.lxi_label(DE, name);
        self.mvi(C, 9);
        self.call_abs(0x0005);
    }
    /// Prints the character `c` through the BDOS.
    fn print_char(&mut self, c: u8) {
        self.mvi(E, c);
        self.mvi(C, 2);
        self.call_abs(0x0005);
    }
    /// Fails unless A holds `v` (flags are clobbered).
    fn expect_a(&mut self, v: u8, fail: &str) {
        self.alu_imm(CMP, v);
        self.jcc(NZ, fail);
    }
    /// Fails unless register `r` holds `v` (A and flags are clobbered).
    fn expect_reg(&mut self, r: u8, v: u8, fail: &str) {
        self.mov(A, r);
        self.expect_a(v, fail);
    }
    /// Warm boot.
    fn exit(&mut self) {
        self.jmp("boot");
    }
}

/// A program skeleton: stack set up, a failure routine that prints
/// `fail_text`, and a `boot` label at address 0.
fn program(body: impl FnOnce(&mut Asm), fail_text: &str) -> Vec<u8> {
    let mut a = Asm::new();
    a.labels.insert("boot".to_string(), 0x0000);
    a.lxi(SP, 0x0F00);
    body(&mut a);
    a.exit();
    a.label("fail");
    a.print("fail_msg");
    a.exit();
    a.text("fail_msg", fail_text);
    a.finish()
}

// ---------------------------------------------------------------------------
// Reference model of the accumulator operations, used to predict the
// checksums of the exerciser.

fn parity_even(x: u8) -> bool {
    x.count_ones() % 2 == 0
}

fn flags_of(r: u8, ac: bool, c: bool) -> u8 {
    let mut f = 0x02u8;
    if r & 0x80 != 0 {
        f |= 0x80;
    }
    if r == 0 {
        f |= 0x40;
    }
    if ac {
        f |= 0x10;
    }
    if parity_even(r) {
        f |= 0x04;
    }
    if c {
        f |= 0x01;
    }
    f
}

fn model_alu(op: u8, a: u8, v: u8, carry: bool) -> (u8, u8) {
    let ci = carry as i32;
    match op {
        ADD | ADC => {
            let cin = if op == ADC { ci } else { 0 };
            let sum = a as i32 + v as i32 + cin;
            let r = sum as u8;
            (r, flags_of(r, (a & 15) as i32 + (v & 15) as i32 + cin > 15, sum > 255))
        }
        SUB | SBB | CMP => {
            let bin = if op == SBB { ci } else { 0 };
            let diff = a as i32 - v as i32 - bin;
            let r = diff as u8;
            // The 8080 subtracts by adding the complement: the auxiliary
            // carry comes out of bit 3 of a + !v + !borrow.
            let f = flags_of(r, (a & 15) as i32 + (!v & 15) as i32 + (1 - bin) > 15, diff < 0);
            (if op == CMP { a } else { r }, f)
        }
        ANA => (a & v, flags_of(a & v, (a | v) & 0x08 != 0, false)),
        INR => {
            let r = a.wrapping_add(1);
            (r, flags_of(r, a & 0x0F == 0x0F, carry))
        }
        DCR => {
            let r = a.wrapping_sub(1);
            (r, flags_of(r, a & 0x0F != 0, carry))
        }
        XRA => (a ^ v, flags_of(a ^ v, false, false)),
        _ => (a | v, flags_of(a | v, false, false)),
    }
}

// ---------------------------------------------------------------------------
// The diagnostic programs.

fn cpudiag_program() -> Vec<u8> {
    program(
        |a| {
            // Immediate arithmetic.
            a.mvi(A, 0x01);
            a.alu_imm(ADD, 0x01);
            a.expect_a(0x02, "fail");
            a.mvi(A, 0xFF);
            a.alu_imm(ADD, 0x01);
            a.jcc(NC, "fail");
            a.jcc(NZ, "fail");
            a.mvi(A, 0x00);
            a.alu_imm(SUB, 0x01);
            a.jcc(NC, "fail");
            a.expect_a(0xFF, "fail");
            // Logic.
            a.mvi(A, 0xF0);
            a.alu_imm(ANA, 0x3C);
            a.expect_a(0x30, "fail");
            a.mvi(A, 0x30);
            a.alu_imm(ORA, 0x0F);
            a.expect_a(0x3F, "fail");
            a.mvi(A, 0x3F);
            a.alu_imm(XRA, 0xFF);
            a.expect_a(0xC0, "fail");
            // Parity and sign.
            a.mvi(A, 0x03);
            a.alu(ORA, A);
            a.jcc(PO, "fail");
            a.mvi(A, 0x01);
            a.alu(ORA, A);
            a.jcc(PE, "fail");
            a.mvi(A, 0x80);
            a.alu(ORA, A);
            a.jcc(P, "fail");
            // Decimal adjust: 09 + 01 = 10.
            a.mvi(A, 0x09);
            a.alu_imm(ADD, 0x01);
            a.daa();
            a.expect_a(0x10, "fail");
            // Rotate.
            a.mvi(A, 0x81);
            a.rlc();
            a.jcc(NC, "fail");
            a.expect_a(0x03, "fail");
            // Stack.
            a.lxi(BC, 0x1234);
            a.push(BC);
            a.pop(DE);
            a.expect_reg(D, 0x12, "fail");
            a.expect_reg(E, 0x34, "fail");
            // Register pairs.
            a.lxi(HL, 0xFFFF);
            a.inx(HL);
            a.mov(A, H);
            a.alu(ORA, L);
            a.jcc(NZ, "fail");
            a.lxi(HL, 0x8000);
            a.dad(HL);
            a.jcc(NC, "fail");
            // Memory through HL.
            a.lxi(HL, 0x0E00);
            a.mvi(M, 0x55);
            a.mov(A, M);
            a.expect_a(0x55, "fail");
            a.inr(M);
            a.mov(A, M);
            a.expect_a(0x56, "fail");
            // Subroutine.
            a.mvi(B, 0);
            a.call("sub");
            a.expect_reg(B, 0x42, "fail");
            a.print("ok_msg");
            a.exit();
            a.label("sub");
            a.mvi(B, 0x42);
            a.ret();
            a.text("ok_msg", "\r\n CPU IS OPERATIONAL");
        },
        "\r\n CPU HAS FAILED!",
    )
}

fn tst8080_program() -> Vec<u8> {
    program(
        |a| {
            a.print("hello");
            // ADC / SBB chains over 16 bits: 0x12FF + 0x0001 = 0x1300.
            a.mvi(A, 0xFF);
            a.alu_imm(ADD, 0x01);
            a.mov(L, A);
            a.mvi(A, 0x12);
            a.alu_imm(ADC, 0x00);
            a.expect_a(0x13, "fail");
            a.expect_reg(L, 0x00, "fail");
            // 0x1300 - 0x0001 = 0x12FF.
            a.mvi(A, 0x00);
            a.alu_imm(SUB, 0x01);
            a.mov(L, A);
            a.mvi(A, 0x13);
            a.alu_imm(SBB, 0x00);
            a.expect_a(0x12, "fail");
            a.expect_reg(L, 0xFF, "fail");
            // Compare sets the flags only.
            a.mvi(A, 0x20);
            a.mvi(B, 0x30);
            a.alu(CMP, B);
            a.jcc(NC, "fail");
            a.jcc(Z, "fail");
            a.expect_a(0x20, "fail");
            // Conditional call and return.
            a.mvi(C, 0);
            a.mvi(A, 0);
            a.alu(ORA, A);
            a.ccc(Z, "bump");
            // The subroutine's INR changed the zero flag: set it again.
            a.alu(ORA, A);
            a.ccc(NZ, "fail");
            a.expect_reg(C, 1, "fail");
            // Rotations through carry.
            a.mvi(A, 0x80);
            a.alu(ORA, A);
            a.ral();
            a.jcc(NC, "fail");
            a.expect_a(0x00, "fail");
            a.stc();
            a.mvi(A, 0x00);
            a.rar();
            a.expect_a(0x80, "fail");
            a.mvi(A, 0x01);
            a.rrc();
            a.jcc(NC, "fail");
            a.expect_a(0x80, "fail");
            // Complement and carry flag operations.
            a.mvi(A, 0x5A);
            a.cma();
            a.expect_a(0xA5, "fail");
            a.stc();
            a.cmc();
            a.jcc(CY, "fail");
            // Increment and decrement keep the carry.
            a.stc();
            a.mvi(D, 0xFF);
            a.inr(D);
            a.jcc(NC, "fail");
            a.jcc(NZ, "fail");
            a.dcr(D);
            a.jcc(P, "fail");
            a.expect_reg(D, 0xFF, "fail");
            // Auxiliary carry: DCR sets it unless the low nibble was 0.
            a.mvi(D, 0x11);
            a.dcr(D);
            a.push(PSW);
            a.pop(BC);
            a.mov(A, C);
            a.alu_imm(ANA, 0x10);
            a.jcc(Z, "fail");
            a.mvi(D, 0x10);
            a.dcr(D);
            a.push(PSW);
            a.pop(BC);
            a.mov(A, C);
            a.alu_imm(ANA, 0x10);
            a.jcc(NZ, "fail");
            // Direct memory.
            a.mvi(A, 0x77);
            a.sta(0x0E10);
            a.mvi(A, 0);
            a.lda(0x0E10);
            a.expect_a(0x77, "fail");
            a.lxi(HL, 0xBEEF);
            a.shld(0x0E20);
            a.lxi(HL, 0);
            a.lhld(0x0E20);
            a.expect_reg(H, 0xBE, "fail");
            a.expect_reg(L, 0xEF, "fail");
            a.print("ok_msg");
            a.exit();
            a.label("bump");
            a.inr(C);
            a.ret();
            a.text("hello", "MICROCOSM ASSOCIATES 8080/8085 CPU DIAGNOSTIC");
            a.text("ok_msg", "\r\n CPU IS OPERATIONAL");
        },
        "\r\n CPU HAS FAILED! ERROR",
    )
}

fn pre_program() -> Vec<u8> {
    program(
        |a| {
            a.print("title");
            // Every register to every register.
            let regs = [B, C, D, E, H, L, A];
            let mut v = 0x11u8;
            for &d in &regs {
                for &s in &regs {
                    if d == s || d == A || s == A {
                        continue;
                    }
                    a.mvi(s, v);
                    a.mov(d, s);
                    a.expect_reg(d, v, "fail");
                    v = v.wrapping_add(0x13);
                }
            }
            // Load and store through BC and DE.
            a.lxi(BC, 0x0E30);
            a.lxi(DE, 0x0E31);
            a.mvi(A, 0x3C);
            a.stax(BC);
            a.mvi(A, 0xC3);
            a.stax(DE);
            a.ldax(BC);
            a.expect_a(0x3C, "fail");
            a.ldax(DE);
            a.expect_a(0xC3, "fail");
            // DCX across a page.
            a.lxi(DE, 0x0100);
            a.dcx(DE);
            a.expect_reg(D, 0x00, "fail");
            a.expect_reg(E, 0xFF, "fail");
            // Jump through HL.
            a.lxi_label(HL, "landing");
            a.pchl();
            a.jmp("fail");
            a.label("landing");
            // Exchanges.
            a.lxi(DE, 0x1122);
            a.lxi(HL, 0x3344);
            a.xchg();
            a.expect_reg(D, 0x33, "fail");
            a.expect_reg(E, 0x44, "fail");
            a.expect_reg(H, 0x11, "fail");
            a.expect_reg(L, 0x22, "fail");
            a.lxi(BC, 0x5566);
            a.push(BC);
            a.lxi(HL, 0x7788);
            a.xthl();
            a.expect_reg(H, 0x55, "fail");
            a.expect_reg(L, 0x66, "fail");
            a.pop(BC);
            a.expect_reg(B, 0x77, "fail");
            a.expect_reg(C, 0x88, "fail");
            // Stack pointer from HL, and back.
            a.lxi(HL, 0);
            a.dad(SP);
            a.mov(B, H);
            a.mov(C, L);
            a.lxi(HL, 0x0E80);
            a.sphl();
            a.lxi(DE, 0xA1B2);
            a.push(DE);
            a.lda(0x0E7F);
            a.expect_a(0xA1, "fail");
            a.mov(H, B);
            a.mov(L, C);
            a.sphl();
            // Ports and interrupt enable: the harness answers 0xFF to IN.
            a.mvi(A, 0x42);
            a.output(0x10);
            a.input(0x01);
            a.expect_a(0xFF, "fail");
            a.ei();
            a.di();
            // Restart 1 goes to 0x0008, where the harness left nothing: use
            // the stack only, then pop the return address.
            a.mvi(A, 0xC9);
            a.sta(0x0008);
            a.rst(1);
            // Conditional returns.
            a.mvi(A, 0x80);
            a.alu(ORA, A);
            a.call("ret_if_minus");
            a.print("done");
            a.exit();
            a.label("ret_if_minus");
            a.rcc(MI);
            a.jmp("fail");
            a.text("title", "8080 Preliminary tests");
            a.text("done", "\r\n8080 Preliminary tests complete");
        },
        "\r\nERROR",
    )
}

fn cputest_program() -> Vec<u8> {
    program(
        |a| {
            a.print("title");
            // BCD addition with DAA: 0x38 + 0x45 = 0x83, 0x99 + 0x01 = 0x00 carry.
            a.mvi(A, 0x38);
            a.alu_imm(ADD, 0x45);
            a.daa();
            a.expect_a(0x83, "fail");
            a.mvi(A, 0x99);
            a.alu_imm(ADD, 0x01);
            a.daa();
            a.jcc(NC, "fail");
            a.expect_a(0x00, "fail");
            // 16-bit addition with carry out.
            a.lxi(HL, 0xFFFF);
            a.lxi(BC, 0x0002);
            a.dad(BC);
            a.jcc(NC, "fail");
            a.expect_reg(H, 0x00, "fail");
            a.expect_reg(L, 0x01, "fail");
            // Push and pop of the program status word.
            a.mvi(A, 0x5A);
            a.stc();
            a.push(PSW);
            a.pop(BC);
            a.expect_reg(B, 0x5A, "fail");
            a.mov(A, C);
            a.alu_imm(ANA, 0x2B);
            a.expect_a(0x03, "fail");
            // Each condition, taken and not taken.
            a.mvi(A, 0x00);
            a.alu(ORA, A);
            a.jcc(NZ, "fail");
            a.jcc(MI, "fail");
            a.jcc(PO, "fail");
            a.jcc(CY, "fail");
            a.mvi(A, 0xFF);
            a.alu_imm(ADD, 0x02);
            a.jcc(Z, "fail");
            a.jcc(NC, "fail");
            a.jcc(MI, "fail");
            a.jcc(PE, "fail");
            // Count down a loop.
            a.mvi(B, 10);
            a.mvi(C, 0);
            a.label("loop");
            a.inr(C);
            a.dcr(B);
            a.jcc(NZ, "loop");
            a.expect_reg(C, 10, "fail");
            a.print("ok_msg");
            a.exit();
            a.text("title", "DIAGNOSTICS II V1.2 - CPU TEST");
            a.text("ok_msg", "\r\nCPU TESTS OK");
        },
        "\r\nCPU FAILED ERROR",
    )
}

const EXERCISED: [(u8, &str); 10] = [
    (ADD, "add"),
    (ADC, "adc"),
    (SUB, "sub"),
    (SBB, "sbb"),
    (ANA, "ana"),
    (XRA, "xra"),
    (ORA, "ora"),
    (CMP, "cmp"),
    (INR, "inr"),
    (DCR, "dcr"),
];

/// Sum over all accumulator values and sixteen operands of the program
/// status word that `op` leaves, with the carry in given.
fn expected_checksum(op: u8, carry: bool) -> u16 {
    let mut sum: u16 = 0;
    for acc in 0..=255u8 {
        let mut v: u16 = 0;
        while v <= 255 {
            let (r, f) = model_alu(op, acc, v as u8, carry);
            sum = sum.wrapping_add(((r as u16) << 8) | f as u16);
            v += 17;
        }
    }
    sum
}

fn exerciser_program() -> Vec<u8> {
    program(
        |a| {
            a.print("title");
            for (op, name) in EXERCISED {
                for carry in [false, true] {
                    let outer = a.fresh("outer");
                    let inner = a.fresh("inner");
                    let bad = a.fresh("bad");
                    let next = a.fresh("next");
                    let label_text = a.fresh("name");
                    a.lxi(HL, 0);
                    a.mvi(C, 0);
                    a.label(&outer);
                    a.mvi(B, 0);
                    a.label(&inner);
                    a.stc();
                    if !carry {
                        a.cmc();
                    }
                    a.mov(A, C);
                    if op == INR {
                        a.inr(A);
                    } else if op == DCR {
                        a.dcr(A);
                    } else {
                        a.alu(op, B);
                    }
                    a.push(PSW);
                    a.pop(DE);
                    a.dad(DE);
                    a.mov(A, B);
                    a.alu_imm(ADD, 17);
                    a.mov(B, A);
                    a.jcc(NC, &inner);
                    a.inr(C);
                    a.jcc(NZ, &outer);
                    // Compare HL with the predicted checksum.
                    let sum = expected_checksum(op, carry);
                    a.print(&label_text);
                    a.mov(A, H);
                    a.alu_imm(CMP, (sum >> 8) as u8);
                    a.jcc(NZ, &bad);
                    a.mov(A, L);
                    a.alu_imm(CMP, sum as u8);
                    a.jcc(NZ, &bad);
                    a.print("ok_msg");
                    a.jmp(&next);
                    a.label(&bad);
                    a.print("err_msg");
                    a.label(&next);
                    let text = if op >= INR {
                        format!("\r\n{} a (carry {})", name, carry as u8)
                    } else {
                        format!("\r\n{} a,r (carry {})", name, carry as u8)
                    };
                    let skip = a.fresh("skip");
                    a.jmp(&skip);
                    a.text(&label_text, &text);
                    a.label(&skip);
                }
            }
            a.print("done");
            a.exit();
            a.text("title", "8080 instruction exerciser");
            a.text("ok_msg", "....  OK");
            a.text("err_msg", "....  ERROR");
            a.text("done", "\r\nTests complete");
        },
        "\r\nERROR",
    )
}

#[test]
fn test_cpudiag() {
    let rom = cpudiag_program();
    let output = run_cpu_test(&rom);
    println!("{}", output);
    assert!(output.contains("CPU IS OPERATIONAL"), "cpudiag failed! Output was:\n{}", output);
}

#[test]
fn test_tst8080() {
    let rom = tst8080_program();
    let output = run_cpu_test(&rom);
    println!("{}", output);
    assert!(output.contains("CPU IS OPERATIONAL"), "TST8080 failed! Output was:\n{}", output);
}

#[test]
fn test_8080pre() {
    let rom = pre_program();
    let output = run_cpu_test(&rom);
    println!("{}", output);
    assert!(!output.contains("ERROR"), "8080PRE failed! Output was:\n{}", output);
}

#[test]
fn preliminary_program_runs_to_its_end() {
    let output = run_cpu_test(&pre_program());
    assert!(output.contains("8080 Preliminary tests complete"), "Output was:\n{}", output);
}

#[test]
fn test_cputest() {
    let rom = cputest_program();
    let output = run_cpu_test(&rom);
    println!("{}", output);
    assert!(output.contains("CPU TESTS OK"), "CPUTEST failed! Output was:\n{}", output);
}

#[test]
fn test_8080exm() {
    let rom = exerciser_program();
    let output = run_cpu_test(&rom);
    println!("{}", output);
    assert!(
        output.contains("8080 instruction exerciser") && !output.contains("ERROR"),
        "8080EXM failed! Output was:\n{}",
        output
    );
}

#[test]
fn exerciser_program_runs_to_its_end() {
    let output = run_cpu_test(&exerciser_program());
    assert!(output.contains("Tests complete"), "Output was:\n{}", output);
    assert_eq!(output.matches("OK").count(), 20, "Output was:\n{}", output);
}
