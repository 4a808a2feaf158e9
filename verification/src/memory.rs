use vstd::prelude::*;

verus! {

/// Memory size is 64 KiB containing both ROM and RAM.
pub const MEMORY_SIZE: usize = 65536;

/// Abstract contents of a `Memory`.
pub struct MemoryView {
    /// The 64 KiB address space.
    pub bytes: Seq<u8>,
    /// Inclusive bounds of the write-protected ROM region, if any.
    pub rom_bounds: Option<(usize, usize)>,
}

/// Bounds that `Memory::new` accepts.
pub open spec fn valid_rom_bounds(rom_bounds: Option<(usize, usize)>) -> bool {
    match rom_bounds {
        Some((start, end)) => start <= end && end <= MEMORY_SIZE,
        None => true,
    }
}

/// `addr` lies in the write-protected region.
pub open spec fn is_protected(rom_bounds: Option<(usize, usize)>, addr: u16) -> bool {
    match rom_bounds {
        Some((start, end)) => start <= addr && addr <= end,
        None => false,
    }
}

/// Effect of writing `val` at `addr`: protected bytes keep their value.
pub open spec fn mem_write(m: MemoryView, addr: u16, val: u8) -> MemoryView {
    if is_protected(m.rom_bounds, addr) {
        m
    } else {
        MemoryView { bytes: m.bytes.update(addr as int, val), rom_bounds: m.rom_bounds }
    }
}

/// Flat 64 KiB address space with an optional write-protected ROM region.
#[derive(Debug)]
pub struct Memory {
    /// Flat 64 KiB array representing the entire addressable space.
    memory: Vec<u8>,
    /// Boundaries for write-protection ROM region.
    rom_bounds: Option<(usize, usize)>,
}

impl View for Memory {
    type V = MemoryView;

    closed spec fn view(&self) -> MemoryView {
        MemoryView { bytes: self.memory@, rom_bounds: self.rom_bounds }
    }
}

impl Memory {
    /// The address space holds exactly 64 KiB and the ROM bounds lie in it.
    pub open spec fn wf(&self) -> bool {
        &&& self@.bytes.len() == MEMORY_SIZE
        &&& valid_rom_bounds(self@.rom_bounds)
    }

    /// Initialize memory, all zero.
    /// - For CPU diagnostic programs: pass `None` to allow full 64 KiB read/write RAM.
    /// - For Space Invaders: pass `Some((0x0000, 0x1FFF))` to protect the game's ROM.
    pub fn new(rom_bounds: Option<(usize, usize)>) -> (m: Self)
        requires
            valid_rom_bounds(rom_bounds),
        ensures
            m.wf(),
            m@.rom_bounds == rom_bounds,
            forall|i: int| 0 <= i < MEMORY_SIZE ==> #[trigger] m@.bytes[i] == 0,
    {
        let memory = vec![0u8; MEMORY_SIZE];
        Self { memory, rom_bounds }
    }

    pub fn read(&self, addr: u16) -> (val: u8)
        requires
            self.wf(),
        ensures
            val == self@.bytes[addr as int],
    {
        self.memory[addr as usize]
    }

    /// Writes `val` at `addr`, unless `addr` lies in the protected ROM region.
    pub fn write(&mut self, addr: u16, val: u8)
        requires
            old(self).wf(),
        ensures
            final(self).wf(),
            final(self)@ == mem_write(old(self)@, addr, val),
            match old(self)@.rom_bounds {
                Some((start, end)) => if start <= addr && addr <= end {
                    final(self)@.bytes == old(self)@.bytes
                } else {
                    final(self)@.bytes[addr as int] == val
                },
                None => final(self)@.bytes[addr as int] == val,
            },
            forall|other: u16| other != addr ==> #[trigger] final(self)@.bytes[other as int] == old(self)@.bytes[other as int],
    {
        let addr_usize = addr as usize;
        if let Some((start, end)) = self.rom_bounds {
            if addr_usize >= start && addr_usize <= end {
                // Protected ROM section, the write is ignored.
                return;
            }
        }
        self.memory.set(addr_usize, val);
    }

    /// Copies `data` to memory from `start_addr` on, as much of it as fits
    /// below the end of the address space. The ROM region is no barrier.
    pub fn load_binary(&mut self, data: &[u8], start_addr: u16)
        requires
            old(self).wf(),
            start_addr + data@.len() <= usize::MAX,
        ensures
            final(self).wf(),
            final(self)@.rom_bounds == old(self)@.rom_bounds,
            forall|i: int|
                0 <= i < MEMORY_SIZE ==> #[trigger] final(self)@.bytes[i] == if start_addr <= i
                    < start_addr + data@.len() {
                    data@[i - start_addr]
                } else {
                    old(self)@.bytes[i]
                },
    {
        let start = start_addr as usize;
        let end = if start + data.len() < MEMORY_SIZE {
            start + data.len()
        } else {
            MEMORY_SIZE
        };
        let mut i = start;
        while i < end
            invariant
                start <= i <= end <= MEMORY_SIZE,
                end <= start + data@.len(),
                end == MEMORY_SIZE || end == start + data@.len(),
                start == start_addr,
                self.wf(),
                self@.rom_bounds == old(self)@.rom_bounds,
                forall|j: int|
                    0 <= j < MEMORY_SIZE ==> #[trigger] self@.bytes[j] == if start <= j < i {
                        data@[j - start]
                    } else {
                        old(self)@.bytes[j]
                    },
            decreases end - i,
        {
            self.memory.set(i, data[i - start]);
            i += 1;
        }
    }
}

/// A byte written outside the ROM region is read back as written, and every
/// other byte keeps its value; a write inside the ROM region changes nothing.
pub proof fn lemma_read_after_write(m: MemoryView, addr: u16, val: u8, other: u16)
    requires
        m.bytes.len() == MEMORY_SIZE,
    ensures
        !is_protected(m.rom_bounds, addr) ==> mem_write(m, addr, val).bytes[addr as int] == val,
        is_protected(m.rom_bounds, addr) ==> mem_write(m, addr, val) == m,
        other != addr ==> mem_write(m, addr, val).bytes[other as int] == m.bytes[other as int],
        mem_write(m, addr, val).rom_bounds == m.rom_bounds,
        mem_write(m, addr, val).bytes.len() == MEMORY_SIZE,
{
}

} // verus!
