use vstd::prelude::*;
use vstd::arithmetic::power2::lemma2_to64;
use crate::utils::bit_at;

verus! {

/// Sounds that a write to output port 3 starts or stops.
pub struct Port3Sounds {
    /// Start the looping UFO sound (bit 0 rose).
    pub ufo_start: bool,
    /// Stop the UFO sound (bit 0 fell).
    pub ufo_stop: bool,
    /// Player shot (bit 1 rose).
    pub player_shot: bool,
    /// Player death (bit 2 rose).
    pub player_death: bool,
    /// Invader death (bit 3 rose).
    pub invader_death: bool,
}

/// Sounds that a write to output port 5 starts.
pub struct Port5Sounds {
    /// The four notes of the invaders' march (bits 0 - 3 rose).
    pub march: [bool; 4],
    /// UFO hit (bit 4 rose).
    pub ufo_hit: bool,
}

/// Bits that are set in `data` and were clear in `last`.
pub open spec fn rising(data: u8, last: u8) -> u8 {
    data & !last
}

/// Bit `mask` rose from `last` to `data`.
pub open spec fn rose(data: u8, last: u8, mask: u8) -> bool {
    rising(data, last) & mask != 0
}

/// The sound outputs latched on ports 3 and 5: a sound starts on the rising
/// edge of its bit.
pub struct SoundLatch {
    last_out_3: u8,
    last_out_5: u8,
}

impl SoundLatch {
    /// Last value written to port 3.
    pub closed spec fn last_3(&self) -> u8 {
        self.last_out_3
    }

    /// Last value written to port 5.
    pub closed spec fn last_5(&self) -> u8 {
        self.last_out_5
    }

    pub fn new() -> (l: Self)
        ensures
            l.last_3() == 0,
            l.last_5() == 0,
    {
        Self { last_out_3: 0, last_out_5: 0 }
    }

    /// Latches `data` written to port 3 and tells which sounds to start or
    /// stop. The UFO sound loops while bit 0 is high.
    pub fn play_sound_port_3(&mut self, data: u8) -> (s: Port3Sounds)
        ensures
            final(self).last_3() == data,
            final(self).last_5() == old(self).last_5(),
            s.ufo_start == rose(data, old(self).last_3(), 0x01),
            s.ufo_stop == (!rose(data, old(self).last_3(), 0x01) && data & 0x01 == 0 && old(self).last_3() & 0x01 != 0),
            s.player_shot == rose(data, old(self).last_3(), 0x02),
            s.player_death == rose(data, old(self).last_3(), 0x04),
            s.invader_death == rose(data, old(self).last_3(), 0x08),
            s.ufo_start == (bit_at(data, 0) && !bit_at(old(self).last_3(), 0)),
            s.ufo_stop == (!bit_at(data, 0) && bit_at(old(self).last_3(), 0)),
            s.player_shot == (bit_at(data, 1) && !bit_at(old(self).last_3(), 1)),
            s.player_death == (bit_at(data, 2) && !bit_at(old(self).last_3(), 2)),
            s.invader_death == (bit_at(data, 3) && !bit_at(old(self).last_3(), 3)),
    {
        proof {
            lemma_edges(data, self.last_out_3);
        }
        // Check rising edge
        let rising_edge = data & !self.last_out_3;
        let ufo_start = rising_edge & 0x01 != 0;
        // Falling edge of bit 0 stops the UFO sound.
        let ufo_stop = !ufo_start && (data & 0x01 == 0) && (self.last_out_3 & 0x01 != 0);
        let s = Port3Sounds {
            ufo_start,
            ufo_stop,
            player_shot: rising_edge & 0x02 != 0,
            player_death: rising_edge & 0x04 != 0,
            invader_death: rising_edge & 0x08 != 0,
        };
        self.last_out_3 = data;
        s
    }

    /// Latches `data` written to port 5 and tells which sounds to start.
    pub fn play_sound_port_5(&mut self, data: u8) -> (s: Port5Sounds)
        ensures
            final(self).last_5() == data,
            final(self).last_3() == old(self).last_3(),
            s.march[0] == rose(data, old(self).last_5(), 0x01),
            s.march[1] == rose(data, old(self).last_5(), 0x02),
            s.march[2] == rose(data, old(self).last_5(), 0x04),
            s.march[3] == rose(data, old(self).last_5(), 0x08),
            s.ufo_hit == rose(data, old(self).last_5(), 0x10),
            forall|k: int| 0 <= k < 4 ==> s.march[k] == (bit_at(data, k as nat) && !bit_at(old(self).last_5(), k as nat)),
            s.ufo_hit == (bit_at(data, 4) && !bit_at(old(self).last_5(), 4)),
    {
        proof {
            lemma_edges(data, self.last_out_5);
        }
        // Check rising edge
        let rising_edge = data & !self.last_out_5;
        let s = Port5Sounds {
            march: [
                rising_edge & 0x01 != 0,
                rising_edge & 0x02 != 0,
                rising_edge & 0x04 != 0,
                rising_edge & 0x08 != 0,
            ],
            ufo_hit: rising_edge & 0x10 != 0,
        };
        self.last_out_5 = data;
        s
    }
}

/// A sound bit held high fires once: writing the same value again starts
/// nothing.
pub proof fn lemma_no_retrigger(data: u8, mask: u8)
    ensures
        !rose(data, data, mask),
{
    assert((data & !data) & mask == 0) by (bit_vector);
}

/// A sound bit rises when it is set in the new value and was clear in the
/// last one.
pub proof fn lemma_edges(data: u8, last: u8)
    ensures
        rose(data, last, 0x01) == (bit_at(data, 0) && !bit_at(last, 0)),
        rose(data, last, 0x02) == (bit_at(data, 1) && !bit_at(last, 1)),
        rose(data, last, 0x04) == (bit_at(data, 2) && !bit_at(last, 2)),
        rose(data, last, 0x08) == (bit_at(data, 3) && !bit_at(last, 3)),
        rose(data, last, 0x10) == (bit_at(data, 4) && !bit_at(last, 4)),
        (data & 0x01 == 0) == !bit_at(data, 0),
        (last & 0x01 != 0) == bit_at(last, 0),
{
    lemma2_to64();
    assert({
        &&& ((data & !last) & 0x01 != 0) == (data / 1 % 2 == 1 && !(last / 1 % 2 == 1))
        &&& ((data & !last) & 0x02 != 0) == (data / 2 % 2 == 1 && !(last / 2 % 2 == 1))
        &&& ((data & !last) & 0x04 != 0) == (data / 4 % 2 == 1 && !(last / 4 % 2 == 1))
        &&& ((data & !last) & 0x08 != 0) == (data / 8 % 2 == 1 && !(last / 8 % 2 == 1))
        &&& ((data & !last) & 0x10 != 0) == (data / 16 % 2 == 1 && !(last / 16 % 2 == 1))
        &&& (data & 0x01 == 0) == !(data / 1 % 2 == 1)
        &&& (last & 0x01 != 0) == (last / 1 % 2 == 1)
    }) by (bit_vector);
}

} // verus!
