//! Space Invaders arcade hardware around an Intel 8080 instruction core.

use vstd::prelude::*;

pub mod audio;
pub mod cpu;
pub mod disassembler;
pub mod hardware_impl;
pub mod interrupt;
pub mod io;
pub mod memory;
pub mod video;

mod utils;
pub use utils::clock;
pub use utils::bit_at;
pub use utils::cycles_to_micros;

verus! {

/// Clock speed of the Space Invaders board: 1.9968 MHz.
pub const CYCLES_SECOND: usize = 1_996_800;

} // verus!
