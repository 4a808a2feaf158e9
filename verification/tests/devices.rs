//! Unit tests of the devices around the CPU.

use emulator::audio::SoundLatch;
use emulator::clock::FixedClock;
use emulator::cpu::cpu::{init, read_instruction, CPUState};
use emulator::cpu::registers::{ConditionBits, Registers};
use emulator::cpu::{Bus, Cpu};
use emulator::cycles_to_micros;
use emulator::disassembler::{decode_instruction, disassembly_listing};
use emulator::hardware_impl::SpaceInvadersHardware;
use emulator::interrupt::Int;
use emulator::io::{ArcadeInputs, DipSwitches, ExtraShipThreshold, IOHandler, StartingLives};
use emulator::memory::Memory;
use emulator::video::{Video, PIX_BUF_LEN, WIDTH};

struct NoIO;

impl IOHandler for NoIO {}

#[test]
fn memory_rom_is_write_protected() {
    let mut m = Memory::new(Some((0x0000, 0x1FFF)));
    m.write(0x1FFF, 0xAA);
    m.write(0x2000, 0xBB);
    assert_eq!(m.read(0x1FFF), 0);
    assert_eq!(m.read(0x2000), 0xBB);
}

#[test]
fn memory_load_binary_ignores_protection_and_truncates() {
    let mut m = Memory::new(Some((0x0000, 0xFFFF)));
    m.load_binary(&[1, 2, 3, 4], 0xFFFE);
    assert_eq!(m.read(0xFFFE), 1);
    assert_eq!(m.read(0xFFFF), 2);
    assert_eq!(m.read(0x0000), 0);
}

#[test]
fn clock_keeps_remainder() {
    let mut c: FixedClock<128> = FixedClock::new();
    assert_eq!(c.step(100), 0);
    assert_eq!(c.step(100), 1);
    assert_eq!(c.cycles, 72);
    assert_eq!(c.step(300), 2);
    assert_eq!(c.cycles, 116);
    c.reset();
    assert_eq!(c.cycles, 0);
}

#[test]
fn clock_two_steps_equal_one() {
    let mut a: FixedClock<7> = FixedClock::new();
    let mut b: FixedClock<7> = FixedClock::new();
    let t = a.step(10) + a.step(25);
    assert_eq!(t, b.step(35));
    assert_eq!(a.cycles, b.cycles);
}

#[test]
fn interrupts_set_and_take() {
    let mut i = Int::new();
    assert!(!i.has_pending());
    i.set_int(Int::VBLANK);
    assert!(i.has_pending());
    assert!(!i.take_int(Int::HALF_SCREEN));
    assert!(i.take_int(Int::VBLANK));
    assert!(!i.take_int(Int::VBLANK));
    assert!(!i.has_pending());
    i.set_int(5);
    assert!(!i.has_pending());
}

#[test]
fn register_pairs_round_trip() {
    let mut r = Registers::default();
    r.set_bc(0x1234);
    r.set_de(0xBEEF);
    r.set_hl(0x00FF);
    assert_eq!((r.B, r.C), (0x12, 0x34));
    assert_eq!(r.get_bc(), 0x1234);
    assert_eq!(r.get_de(), 0xBEEF);
    assert_eq!((r.H, r.L), (0x00, 0xFF));
    assert_eq!(r.get_hl(), 0x00FF);
}

#[test]
fn condition_bits_fixed_bits() {
    let mut f = ConditionBits::default();
    assert_eq!(f.bits, 0x02);
    f.set_bits(0xFF);
    assert_eq!(f.bits, 0xD7);
    f.set_bits(0x00);
    assert_eq!(f.bits, 0x02);
    f.set_c(true);
    f.set_z(true);
    assert!(f.c() && f.z() && !f.s() && !f.p() && !f.ac());
    assert_eq!(f.bits, 0x43);
    f.set_c(false);
    assert!(!f.c() && f.z());
}

#[test]
fn cycles_to_real_time() {
    assert_eq!(cycles_to_micros(1_996_800), 1_000_000);
    assert_eq!(cycles_to_micros(16_000), 8012);
}

#[test]
fn video_renders_on_vblank() {
    let mut v = Video::new();
    let mut ints = Int::new();
    // Byte 0, bit 0: unrotated (0, 0), which lands at the bottom left.
    v.write_vram(0, 0x01);
    assert_eq!(v.read_vram(0), 0x01);
    // 96 lines: half-screen interrupt, no picture yet.
    v.step(&mut ints, 96 * 128);
    assert!(!v.img_ready);
    assert!(ints.take_int(Int::HALF_SCREEN));
    assert!(!ints.take_int(Int::VBLANK));
    // 128 more lines reach line 224: VBlank and a new picture.
    v.step(&mut ints, 128 * 128 + 5);
    assert!(v.img_ready);
    assert!(ints.take_int(Int::VBLANK));
    let idx = (255 * WIDTH) * 3;
    assert_eq!(&v.pixel_buffer[idx..idx + 3], &[255, 255, 255]);
    assert_eq!(v.pixel_buffer[idx + 3], 0);
    assert_eq!(v.pixel_buffer.len(), PIX_BUF_LEN);
    let lit = v.pixel_buffer.iter().filter(|&&b| b == 255).count();
    assert_eq!(lit, 3);
}

#[test]
fn video_frame_rotation_of_last_bit() {
    let mut v = Video::new();
    let mut ints = Int::new();
    // Last byte (7167), bit 7: unrotated x = 255, y = 223: top right.
    v.write_vram(7167, 0x80);
    v.step(&mut ints, 224 * 128);
    assert!(v.img_ready);
    let idx = 223 * 3;
    assert_eq!(v.pixel_buffer[idx], 255);
}

#[test]
fn hardware_ports() {
    let dip = DipSwitches {
        starting_lives: StartingLives::Five,
        extra_ship_threshold: ExtraShipThreshold::At1000Points,
        display_coin_info: false,
    };
    let mut hw = SpaceInvadersHardware::new(dip);
    let mut inputs = ArcadeInputs::default();
    inputs.coin = true;
    inputs.p1_fire = true;
    inputs.tilt = true;
    inputs.p2_right = true;
    hw.update_input(&inputs);
    assert_eq!(hw.read_port(1), 0b0001_1001);
    assert_eq!(hw.read_port(2), 0b1100_1110);
    assert_eq!(hw.read_port(7), 0);
}

#[test]
fn cpu_reads_and_shifts_through_the_cabinet() {
    let mut hw = SpaceInvadersHardware::new(DipSwitches::default());
    let mut inputs = ArcadeInputs::default();
    inputs.coin = true;
    hw.update_input(&inputs);
    let mut memory = Memory::new(None);
    // IN 1 ; MOV B,A ; MVI A,0xAB ; OUT 4 ; MVI A,0xCD ; OUT 4 ; MVI A,4 ; OUT 2 ; IN 3
    memory.load_binary(
        &[0xDB, 0x01, 0x47, 0x3E, 0xAB, 0xD3, 0x04, 0x3E, 0xCD, 0xD3, 0x04, 0x3E, 0x04, 0xD3, 0x02, 0xDB, 0x03],
        0,
    );
    let mut cpu = Cpu::new();
    let mut ints = Int::new();
    let mut video = Video::new();
    for _ in 0..9 {
        cpu.step(&mut Bus {
            memory: &mut memory,
            interrupts: &mut ints,
            video: &mut video,
            io: &mut hw,
            has_mirrors: false,
            mirror_mask: 0,
        });
    }
    assert_eq!(cpu.get_register("B"), 0x09);
    // Register 0xCDAB seen through offset 4: bits 11 - 4.
    assert_eq!(cpu.get_register("A"), 0xDA);
}

#[test]
fn hardware_default_switches() {
    let mut hw = SpaceInvadersHardware::new(DipSwitches::default());
    hw.update_input(&ArcadeInputs::default());
    assert_eq!(hw.read_port(1), 0x08);
    assert_eq!(hw.read_port(2), 0x00);
}

#[test]
fn shift_register_window() {
    let mut hw = SpaceInvadersHardware::new(DipSwitches::default());
    hw.write_port(4, 0xAB);
    hw.write_port(4, 0xCD);
    hw.write_port(2, 0);
    assert_eq!(hw.read_port(3), 0xCD);
    hw.write_port(2, 4);
    assert_eq!(hw.read_port(3), 0xDA);
    hw.write_port(2, 0x0F);
    assert_eq!(hw.read_port(3), ((0xCDABu16 << 7) >> 8) as u8);
}

#[test]
fn sound_rising_edges() {
    let mut l = SoundLatch::new();
    let s = l.play_sound_port_3(0x03);
    assert!(s.ufo_start && s.player_shot && !s.ufo_stop && !s.player_death);
    let s = l.play_sound_port_3(0x03);
    assert!(!s.ufo_start && !s.player_shot && !s.ufo_stop);
    let s = l.play_sound_port_3(0x00);
    assert!(s.ufo_stop && !s.ufo_start);
    let s = l.play_sound_port_5(0x11);
    assert!(s.march[0] && !s.march[1] && s.ufo_hit);
    let s = l.play_sound_port_5(0x13);
    assert!(!s.march[0] && s.march[1] && !s.ufo_hit);
}

#[test]
fn disassembler_texts() {
    let code = [0x00, 0x01, 0x34, 0x12, 0x3E, 0x0A, 0xCA, 0xEF, 0xBE, 0xD3];
    assert_eq!(decode_instruction(&code, 0), (1, "NOP".to_string()));
    assert_eq!(decode_instruction(&code, 1), (3, "LXI\tB,#$1234".to_string()));
    assert_eq!(decode_instruction(&code, 4), (2, "MVI\tA,#$0a".to_string()));
    assert_eq!(decode_instruction(&code, 6), (3, "JZ\t\t$beef".to_string()));
    assert_eq!(decode_instruction(&[0xD3, 0x02], 0), (2, "OUT\t$02".to_string()));
    assert_eq!(decode_instruction(&[0x80], 0), (1, "ADD\tB".to_string()));
}

#[test]
fn disassembler_mnemonics_of_dcx_d_and_rar() {
    assert_eq!(decode_instruction(&[0x1B], 0), (1, "DCX\tD".to_string()));
    assert_eq!(decode_instruction(&[0x1F], 0), (1, "RAR".to_string()));
}

#[test]
fn disassembly_listing_lines() {
    let code = [0x00, 0x01, 0x34, 0x12, 0x3E, 0x0A];
    let (text, fits) = disassembly_listing(&code);
    assert!(fits);
    assert_eq!(text, "0000 NOP\n0001 LXI\tB,#$1234\n0004 MVI\tA,#$0a\n");
}

#[test]
fn disassembly_listing_stops_at_a_cut_instruction() {
    // JMP with one operand byte missing.
    let (text, fits) = disassembly_listing(&[0x00, 0xC3, 0x00]);
    assert!(!fits);
    assert_eq!(text, "0000 NOP\n");
    let (text, fits) = disassembly_listing(&[]);
    assert!(fits);
    assert_eq!(text, "");
}

#[test]
fn disassembly_listing_pads_addresses() {
    let code = vec![0u8; 0x11];
    let (text, _) = disassembly_listing(&code);
    assert!(text.starts_with("0000 NOP\n0001 NOP\n"));
    assert!(text.ends_with("000f NOP\n0010 NOP\n"));
    let big = vec![0u8; 0x10001];
    let (text, _) = disassembly_listing(&big);
    assert!(text.ends_with("ffff NOP\n10000 NOP\n"));
}

#[test]
fn interpreter_runs_a_program() {
    // MVI A,5 ; MVI B,3 ; ADD B ; STA 0x0100 ; LDA 0x0100 ; JMP 0x0010 ; ... HLT at 0x0010
    let mut rom = vec![0x3E, 0x05, 0x06, 0x03, 0x80, 0x32, 0x00, 0x01, 0x3A, 0x00, 0x01, 0xC3, 0x10, 0x00];
    rom.resize(0x10, 0);
    rom.push(0x76);
    let mut state = init(rom);
    let mut steps = 0;
    while state.cpu_state == CPUState::RUNNING {
        state = read_instruction(state);
        steps += 1;
        assert!(steps < 100);
    }
    assert_eq!(state.pc, 0x11);
    assert_eq!(steps, 7);
}

#[test]
fn interpreter_and_cpu_agree_step_by_step() {
    // MVI A,5 ; MVI B,3 ; ADD B ; STA 0x0100 ; LDA 0x0100 ; JMP 0x0010 ; ... HLT at 0x0010
    let mut rom = vec![0x3E, 0x05, 0x06, 0x03, 0x80, 0x32, 0x00, 0x01, 0x3A, 0x00, 0x01, 0xC3, 0x10, 0x00];
    rom.resize(0x10, 0);
    rom.push(0x76);
    let mut memory = Memory::new(None);
    memory.load_binary(&rom, 0);
    let mut cpu = Cpu::new();
    let mut ints = Int::new();
    let mut video = Video::new();
    let mut io = NoIO;
    let mut state = init(rom);
    while state.cpu_state == CPUState::RUNNING {
        state = read_instruction(state);
        cpu.step(&mut Bus {
            memory: &mut memory,
            interrupts: &mut ints,
            video: &mut video,
            io: &mut io,
            has_mirrors: false,
            mirror_mask: 0,
        });
        assert_eq!(state.pc, cpu.get_pc());
    }
    assert_eq!(cpu.get_register("A"), 8);
    assert_eq!(memory.read(0x0100), 8);
    // The CPU ran HLT with interrupts disabled: it does not halt.
    assert!(!cpu.is_halted());
}

#[test]
fn cpu_single_steps() {
    let mut cpu = Cpu::new();
    let mut memory = Memory::new(None);
    let mut ints = Int::new();
    let mut video = Video::new();
    let mut io = NoIO;
    // LXI SP,0x2000 ; LXI B,0xABCD ; PUSH B ; POP H ; HLT
    memory.load_binary(&[0x31, 0x00, 0x20, 0x01, 0xCD, 0xAB, 0xC5, 0xE1, 0x76], 0);
    let mut cycles = Vec::new();
    for _ in 0..5 {
        cycles.push(cpu.step(&mut Bus {
            memory: &mut memory,
            interrupts: &mut ints,
            video: &mut video,
            io: &mut io,
            has_mirrors: false,
            mirror_mask: 0,
        }));
    }
    assert_eq!(cycles, vec![10, 10, 11, 10, 7]);
    assert_eq!(cpu.get_register_pair("HL"), 0xABCD);
    assert_eq!(cpu.get_register("H"), 0xAB);
    assert_eq!(memory.read(0x1FFE), 0xCD);
    assert_eq!(memory.read(0x1FFF), 0xAB);
    // Interrupts are disabled, so HLT does not halt: the CPU runs on.
    assert_eq!(cpu.get_pc(), 9);
}

#[test]
fn bus_mirrors_video_ram() {
    let mut memory = Memory::new(Some((0x0000, 0x1FFF)));
    let mut ints = Int::new();
    let mut video = Video::new();
    let mut io = NoIO;
    let mut bus = Bus {
        memory: &mut memory,
        interrupts: &mut ints,
        video: &mut video,
        io: &mut io,
        has_mirrors: true,
        mirror_mask: 0x3FFF,
    };
    // 0x6400 mirrors 0x2400, the first byte of video RAM.
    bus.write_u8(0x6400, 0x5A);
    assert_eq!(bus.read_u8(0x2400), 0x5A);
    // ROM writes are ignored through the bus too.
    bus.write_u8(0x4000, 0x11);
    assert_eq!(bus.read_u8(0x0000), 0);
    // Little-endian words.
    bus.write_u16(0x2000, 0xBEEF);
    assert_eq!(bus.read_u8(0x2000), 0xEF);
    assert_eq!(bus.read_u16(0x2000), 0xBEEF);
    assert_eq!(bus.io_read(1), 0);
    drop(bus);
    assert_eq!(video.read_vram(0), 0x5A);
    assert_eq!(memory.read(0x2400), 0x5A);
}

#[test]
fn condition_bits_text() {
    let mut f = ConditionBits::default();
    f.set_s(true);
    f.set_c(true);
    assert_eq!(f.to_string(), "sign: true,\nzero: false,\nac: false,\nparity: false,\ncarry: true");
    assert_eq!(f.to_binary_string(), "0b10000011");
    f.set_p(true);
    f.set_ac(true);
    assert_eq!(f.to_binary_string(), "0b10010111");
}

#[test]
fn video_split_steps_match_one_step() {
    let mut v1 = Video::new();
    let mut i1 = Int::new();
    v1.step(&mut i1, 95 * 128 + 100);
    assert!(!i1.has_pending());
    v1.step(&mut i1, 30);
    let mut v2 = Video::new();
    let mut i2 = Int::new();
    v2.step(&mut i2, 95 * 128 + 130);
    assert!(i1.take_int(Int::HALF_SCREEN));
    assert!(i2.take_int(Int::HALF_SCREEN));
    // From line 96, 128 more lines pass line 224 in either way.
    v1.step(&mut i1, 64 * 128);
    v1.step(&mut i1, 64 * 128);
    v2.step(&mut i2, 128 * 128);
    assert!(i1.take_int(Int::VBLANK) && i2.take_int(Int::VBLANK));
    assert_eq!(v1.pixel_buffer, v2.pixel_buffer);
}
