/// Space Invaders arcade I/O: input ports and the shift register.
pub mod space_invaders_hw;

pub use space_invaders_hw::SpaceInvadersHardware;
