use vstd::prelude::*;
use crate::cpu::registers::pair;
use crate::interrupt::Int;
use crate::io::IOHandler;
use crate::memory::{mem_write, Memory, MemoryView, MEMORY_SIZE};
use crate::video::{Video, VRAM_SIZE};

verus! {

/// Start of video RAM in the mirrored memory map.
pub const VRAM_START: u16 = 0x2400;

/// What the CPU sees through a bus.
pub struct BusView {
    pub mem: MemoryView,
    pub vram: Seq<u8>,
    pub has_mirrors: bool,
    pub mirror_mask: u16,
}

/// Address that `addr` selects once the mirror mask is applied.
pub open spec fn real_addr(b: BusView, addr: u16) -> u16 {
    if b.has_mirrors {
        addr & b.mirror_mask
    } else {
        addr
    }
}

/// Under the mirror setting given, `addr` selects a device: without
/// mirrors every address does, with mirrors only those that fall below
/// 0x4000 after masking.
pub open spec fn mapped(has_mirrors: bool, mirror_mask: u16, addr: u16) -> bool {
    !has_mirrors || (addr & mirror_mask) < 0x4000
}

/// `addr` selects a device on bus `b`.
pub open spec fn maps(b: BusView, addr: u16) -> bool {
    mapped(b.has_mirrors, b.mirror_mask, addr)
}

/// The address lies in video RAM (mirrored map only).
pub open spec fn in_vram(b: BusView, addr: u16) -> bool {
    b.has_mirrors && real_addr(b, addr) >= VRAM_START
}

/// Byte that a read of `addr` returns.
pub open spec fn bus_read(b: BusView, addr: u16) -> u8 {
    if in_vram(b, addr) {
        b.vram[real_addr(b, addr) - VRAM_START]
    } else {
        b.mem.bytes[real_addr(b, addr) as int]
    }
}

/// Effect of writing `val` at `addr`: memory takes it (unless protected),
/// and so does video RAM when the address lies there.
pub open spec fn bus_write(b: BusView, addr: u16, val: u8) -> BusView {
    BusView {
        mem: mem_write(b.mem, real_addr(b, addr), val),
        vram: if in_vram(b, addr) {
            b.vram.update(real_addr(b, addr) - VRAM_START, val)
        } else {
            b.vram
        },
        ..b
    }
}

/// Little-endian 16-bit value read at `addr` and the next address.
pub open spec fn bus_read16(b: BusView, addr: u16) -> u16 {
    pair(bus_read(b, addr.wrapping_add(1)), bus_read(b, addr))
}

/// Effect of writing `val` little-endian at `addr` and the next address.
pub open spec fn bus_write16(b: BusView, addr: u16, val: u16) -> BusView {
    bus_write(bus_write(b, addr, (val % 256) as u8), addr.wrapping_add(1), (val / 256) as u8)
}

/// The bus holds well-formed devices.
pub open spec fn bus_view_wf(b: BusView) -> bool {
    &&& b.mem.bytes.len() == MEMORY_SIZE
    &&& crate::memory::valid_rom_bounds(b.mem.rom_bounds)
    &&& b.vram.len() == VRAM_SIZE
}

/// Bus that connects all devices.
pub struct Bus<'a, I: IOHandler> {
    pub memory: &'a mut Memory,
    pub interrupts: &'a mut Int,
    pub video: &'a mut Video,
    pub io: &'a mut I,
    pub has_mirrors: bool,
    pub mirror_mask: u16,
}

impl<'a, I: IOHandler> View for Bus<'a, I> {
    type V = BusView;

    open spec fn view(&self) -> BusView {
        BusView {
            mem: self.memory@,
            vram: self.video.vram(),
            has_mirrors: self.has_mirrors,
            mirror_mask: self.mirror_mask,
        }
    }
}

proof fn lemma_real_addr_bytes(addr: u16, mask: u16)
    ensures
        ((addr & mask) >> 8 <= 0x23) == ((addr & mask) < 0x2400),
        ((addr & mask) >> 8 <= 0x3F) == ((addr & mask) < 0x4000),
        ((addr & mask) >> 8 <= 0x1F) ==> (addr & mask) < 0x2400,
{
    assert({
        &&& ((addr & mask) >> 8 <= 0x23) == ((addr & mask) < 0x2400)
        &&& ((addr & mask) >> 8 <= 0x3F) == ((addr & mask) < 0x4000)
        &&& ((addr & mask) >> 8 <= 0x1F) ==> (addr & mask) < 0x2400
    }) by (bit_vector);
}

impl<'a, I: IOHandler> Bus<'a, I> {
    /// The memory and video RAM behind the bus are well formed.
    pub open spec fn wf(&self) -> bool {
        self.memory.wf() && self.video.wf()
    }

    /// The I/O handler behind the bus.
    pub open spec fn handler(&self) -> I {
        *self.io
    }

    /// The devices other than memory, video RAM and the I/O handler, and the
    /// bus settings, are the same in `self` and `other`.
    pub open spec fn same_devices(&self, other: &Self) -> bool {
        &&& self.interrupts == other.interrupts
        &&& self.has_mirrors == other.has_mirrors
        &&& self.mirror_mask == other.mirror_mask
        &&& self.video.pixels() == other.video.pixels()
        &&& self.video.ready() == other.video.ready()
        &&& self.video.scanline() == other.video.scanline()
        &&& self.video.clock_cycles() == other.video.clock_cycles()
    }

    /// The devices other than memory and video RAM, and the bus settings,
    /// are the same in `self` and `other`.
    pub open spec fn same_frame(&self, other: &Self) -> bool {
        self.same_devices(other) && self.io == other.io
    }

    /// Read a single byte.
    pub fn read_u8(&self, addr: u16) -> (val: u8)
        requires
            self.wf(),
            maps(self@, addr),
        ensures
            val == bus_read(self@, addr),
    {
        if self.has_mirrors {
            let real_addr = addr & self.mirror_mask;
            proof {
                lemma_real_addr_bytes(addr, self.mirror_mask);
            }
            let n = real_addr >> 8;
            if n <= 0b0001_1111 {
                self.memory.read(real_addr)
            } else if n >= 0b0010_0000 && n <= 0b0010_0011 {
                self.memory.read(real_addr)
            } else {
                // Video RAM 0x2400 - 0x3FFF; nothing else is mapped.
                self.video.read_vram(real_addr - 0x2400)
            }
        } else {
            self.memory.read(addr)
        }
    }

    /// Write a single byte.
    pub fn write_u8(&mut self, addr: u16, val: u8)
        requires
            old(self).wf(),
            maps(old(self)@, addr),
        ensures
            final(self).wf(),
            final(self)@ == bus_write(old(self)@, addr, val),
            final(self).same_frame(old(self)),
    {
        if self.has_mirrors {
            let real_addr = addr & self.mirror_mask;
            proof {
                lemma_real_addr_bytes(addr, self.mirror_mask);
            }
            let n = real_addr >> 8;
            if n <= 0b0001_1111 {
                self.memory.write(real_addr, val);
            } else if n >= 0b0010_0000 && n <= 0b0010_0011 {
                self.memory.write(real_addr, val);
            } else {
                // Video RAM 0x2400 - 0x3FFF; nothing else is mapped.
                self.video.write_vram(real_addr - 0x2400, val);
                // Memory keeps a copy of video RAM.
                self.memory.write(real_addr, val);
            }
        } else {
            self.memory.write(addr, val);
        }
    }

    /// Read two bytes, little endian.
    pub fn read_u16(&mut self, addr: u16) -> (val: u16)
        requires
            old(self).wf(),
            maps(old(self)@, addr),
            maps(old(self)@, addr.wrapping_add(1)),
        ensures
            val == bus_read16(old(self)@, addr),
            *final(self) == *old(self),
    {
        let lo = self.read_u8(addr);
        let hi = self.read_u8(addr.wrapping_add(1));
        proof {
            crate::cpu::registers::lemma_pair_bytes(hi, lo);
        }
        ((hi as u16) << 8) | lo as u16
    }

    /// Write two bytes, little endian.
    pub fn write_u16(&mut self, addr: u16, val: u16)
        requires
            old(self).wf(),
            maps(old(self)@, addr),
            maps(old(self)@, addr.wrapping_add(1)),
        ensures
            final(self).wf(),
            final(self)@ == bus_write16(old(self)@, addr, val),
            final(self).same_frame(old(self)),
    {
        let lo = val as u8;
        let hi = (val >> 8) as u8;
        proof {
            crate::cpu::registers::lemma_split_pair(val);
        }
        self.write_u8(addr, lo);
        self.write_u8(addr.wrapping_add(1), hi);
    }

    /// Read from port: the I/O handler's `read_port` answers.
    pub fn io_read(&self, port: u8) -> (val: u8)
        ensures
            call_ensures(I::read_port, (&self.handler(), port), val),
    {
        self.io.read_port(port)
    }

    /// Write to port: the I/O handler's `write_port` takes the value, and
    /// nothing else behind the bus changes.
    pub fn io_write(&mut self, port: u8, value: u8)
        ensures
            final(self).memory == old(self).memory,
            final(self).video == old(self).video,
            final(self).interrupts == old(self).interrupts,
            final(self).has_mirrors == old(self).has_mirrors,
            final(self).mirror_mask == old(self).mirror_mask,
            exists|io: &mut I|
                *io == old(self).handler() && *final(io) == final(self).handler()
                    && #[trigger] call_ensures(I::write_port, (io, port, value), ()),
    {
        self.io.write_port(port, value);
    }
}

/// With every address mapped, a 16-bit write is read back as written as long
/// as neither byte lands in the ROM region and the two bytes land on
/// different real addresses.
pub proof fn lemma_read16_after_write16(b: BusView, addr: u16, val: u16)
    requires
        bus_view_wf(b),
        maps(b, addr),
        maps(b, addr.wrapping_add(1)),
        real_addr(b, addr) != real_addr(b, addr.wrapping_add(1)),
        !crate::memory::is_protected(b.mem.rom_bounds, real_addr(b, addr)),
        !crate::memory::is_protected(b.mem.rom_bounds, real_addr(b, addr.wrapping_add(1))),
    ensures
        bus_read16(bus_write16(b, addr, val), addr) == val,
{
    let a1 = addr.wrapping_add(1);
    lemma_real_bounds(b, addr);
    lemma_real_bounds(b, a1);
    crate::cpu::registers::lemma_pair_round_trip(0, 0, val);
    if in_vram(b, addr) && in_vram(b, a1) {
        assert(real_addr(b, addr) - VRAM_START != real_addr(b, a1) - VRAM_START);
    }
}

/// A write leaves what is read at another real address as it was, and keeps
/// the bus well formed.
pub proof fn lemma_read_other_after_write(b: BusView, addr: u16, val: u8, other: u16)
    requires
        bus_view_wf(b),
        maps(b, addr),
        maps(b, other),
        real_addr(b, addr) != real_addr(b, other),
    ensures
        bus_read(bus_write(b, addr, val), other) == bus_read(b, other),
        bus_view_wf(bus_write(b, addr, val)),
        bus_write(b, addr, val).has_mirrors == b.has_mirrors,
        bus_write(b, addr, val).mirror_mask == b.mirror_mask,
        bus_write(b, addr, val).mem.rom_bounds == b.mem.rom_bounds,
{
    lemma_real_bounds(b, addr);
    lemma_real_bounds(b, other);
    if in_vram(b, addr) && in_vram(b, other) {
        assert(real_addr(b, addr) - VRAM_START != real_addr(b, other) - VRAM_START);
    }
}

proof fn lemma_real_bounds(b: BusView, addr: u16)
    requires
        maps(b, addr),
    ensures
        in_vram(b, addr) ==> 0 <= real_addr(b, addr) - VRAM_START < VRAM_SIZE,
        in_vram(b, addr) == (b.has_mirrors && real_addr(b, addr) >= VRAM_START),
{
}

} // verus!
