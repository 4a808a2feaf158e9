use vstd::prelude::*;

verus! {

/// I/O ports of the machine around the CPU.
#[allow(unused_variables)]
pub trait IOHandler {
    /// Value seen on input port `port`; unhandled ports read 0.
    fn read_port(&self, port: u8) -> (val: u8)
        default_ensures
            val == 0,
    {
        0
    }

    /// Output `value` on port `port`; unhandled ports ignore it.
    fn write_port(&mut self, port: u8, value: u8) {
    }
}

/// Generic representation of physical arcade controls.
#[derive(Debug, Clone, Copy, Default)]
pub struct ArcadeInputs {
    // Shared controls
    pub coin: bool,
    pub tilt: bool,
    // Player 1
    pub p1_start: bool,
    pub p1_left: bool,
    pub p1_right: bool,
    pub p1_fire: bool,
    // Player 2
    pub p2_start: bool,
    pub p2_left: bool,
    pub p2_right: bool,
    pub p2_fire: bool,
}

/// Cabinet configuration switches.
#[derive(Debug, Clone, Copy)]
pub struct DipSwitches {
    /// Number of starting lives.
    pub starting_lives: StartingLives,
    /// Score threshold for extra lives.
    pub extra_ship_threshold: ExtraShipThreshold,
    /// Display or hide the coin insertion prompt on the bottom screen.
    pub display_coin_info: bool,
}

impl Default for DipSwitches {
    fn default() -> (d: Self)
        ensures
            d.starting_lives == StartingLives::Three,
            d.extra_ship_threshold == ExtraShipThreshold::At1500Points,
            d.display_coin_info,
    {
        Self {
            starting_lives: StartingLives::Three,
            extra_ship_threshold: ExtraShipThreshold::At1500Points,
            display_coin_info: true,
        }
    }
}

/// Number of lives a game starts with; the switch value is its code.
#[derive(Debug, Clone, Copy, PartialEq, Eq)]
pub enum StartingLives {
    Three,
    Four,
    Five,
    Six,
}

/// Switch code of a starting-lives setting: 0b00 for three up to 0b11 for six.
pub open spec fn lives_code(l: StartingLives) -> u8 {
    match l {
        StartingLives::Three => 0b00,
        StartingLives::Four => 0b01,
        StartingLives::Five => 0b10,
        StartingLives::Six => 0b11,
    }
}

impl StartingLives {
    /// The two switch bits for this setting.
    pub fn code(&self) -> (c: u8)
        ensures
            c == lives_code(*self),
    {
        match self {
            StartingLives::Three => 0b00,
            StartingLives::Four => 0b01,
            StartingLives::Five => 0b10,
            StartingLives::Six => 0b11,
        }
    }
}

/// Score from which an extra ship is granted.
#[derive(Debug, Clone, Copy, PartialEq, Eq)]
pub enum ExtraShipThreshold {
    At1500Points,
    At1000Points,
}

/// Switch code of an extra-ship setting: 0 for 1500 points, 1 for 1000.
pub open spec fn threshold_code(t: ExtraShipThreshold) -> u8 {
    match t {
        ExtraShipThreshold::At1500Points => 0,
        ExtraShipThreshold::At1000Points => 1,
    }
}

impl ExtraShipThreshold {
    /// The switch bit for this setting.
    pub fn code(&self) -> (c: u8)
        ensures
            c == threshold_code(*self),
    {
        match self {
            ExtraShipThreshold::At1500Points => 0,
            ExtraShipThreshold::At1000Points => 1,
        }
    }
}

} // verus!
