# emulator

Space Invaders arcade hardware around an Intel 8080 instruction core, with
its behaviour stated in Verus contracts and proved.

- `src/cpu/semantics.rs` states what one CPU step does, over abstract CPU
  and bus states, for the whole 8080 instruction set with its cycle counts
  and flag rules; IN and OUT go through the cabinet's I/O handler.
  `src/cpu/instructions.rs` and `src/cpu.rs` implement the step and are
  proved against it. `src/cpu/properties.rs` holds properties that span
  instructions: fixed flag bits, ROM protection, cycle bounds, memory left
  alone by non-storing opcodes, push/pop and call/return round trips, the
  compare flags, and DAA giving the decimal sum after an addition.
- `src/cpu/cpu.rs` is a simpler interpreter over a flat 64 KiB memory that
  runs opcodes 0x00 - 0x7F and JMP. On each of them it is proved to leave
  the same registers, flags, stack pointer, program counter and memory as
  the CPU on a plain RAM bus; on HLT the two differ only in whether they
  halt (the interpreter always stops, the CPU only with interrupts enabled).
- `src/cpu/bus.rs`, `src/memory.rs`, `src/video.rs`, `src/interrupt.rs`,
  `src/hardware_impl/`, `src/audio.rs`: the memory map with its mirrors and
  ROM protection, video RAM and its rotated picture, the interrupt latch,
  the cabinet's I/O ports and shift register, and the sound edge latch.
- `src/disassembler.rs` decodes instructions to text and builds the
  address-prefixed listing of a ROM.
- `app/` runs the cabinet on SDL2 (window, keyboard, sound, pacing), and
  offers the disassembler and the flat-memory interpreter from the command
  line.
- `tests/` holds CPU diagnostic programs run through a small CP/M harness,
  and unit tests of every device.
