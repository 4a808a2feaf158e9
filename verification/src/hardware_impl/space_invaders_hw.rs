use vstd::prelude::*;
use vstd::arithmetic::power2::{lemma2_to64, pow2};
use crate::utils::bit_at;
use crate::io::{lives_code, threshold_code, ArcadeInputs, DipSwitches, ExtraShipThreshold, IOHandler, StartingLives};

verus! {

/// Abstract state of the Space Invaders I/O hardware.
pub struct HwView {
    pub port1: u8,
    pub port2: u8,
    pub dip_switches: DipSwitches,
    pub shift_register: u16,
    pub shift_offset: u8,
}

/// `mask` if `on`, else 0.
pub open spec fn bit_if(on: bool, mask: u8) -> u8 {
    if on {
        mask
    } else {
        0
    }
}

/// Input port 1: bit 0 coin, bit 1 P2 start, bit 2 P1 start, bit 3 always
/// 1, bit 4 P1 fire, bit 5 P1 left, bit 6 P1 right, bit 7 unused (0).
pub open spec fn port1_value(i: ArcadeInputs) -> u8 {
    0x08 | bit_if(i.coin, 0x01) | bit_if(i.p2_start, 0x02) | bit_if(i.p1_start, 0x04) | bit_if(
        i.p1_fire,
        0x10,
    ) | bit_if(i.p1_left, 0x20) | bit_if(i.p1_right, 0x40)
}

/// Input port 2: bits 0-1 starting lives (00 = 3, 01 = 4, 10 = 5, 11 = 6),
/// bit 2 tilt, bit 3 extra life at 1000 points (else 1500), bit 4 P2 fire,
/// bit 5 P2 left, bit 6 P2 right, bit 7 set to hide the coin info.
pub open spec fn port2_value(d: DipSwitches, i: ArcadeInputs) -> u8 {
    lives_code(d.starting_lives) | (threshold_code(d.extra_ship_threshold) * 8) as u8 | bit_if(
        !d.display_coin_info,
        0x80,
    ) | bit_if(i.tilt, 0x04) | bit_if(i.p2_fire, 0x10) | bit_if(i.p2_left, 0x20) | bit_if(
        i.p2_right,
        0x40,
    )
}

/// What input port `port` reads: ports 1 and 2 the inputs, port 3 the
/// 8-bit window of the shift register selected by the offset, any other
/// port 0 (floating bus).
pub open spec fn port_read(h: HwView, port: u8) -> u8 {
    if port == 1 {
        h.port1
    } else if port == 2 {
        h.port2
    } else if port == 3 {
        (h.shift_register >> (8 - h.shift_offset) as u16) as u8
    } else {
        0
    }
}

/// Effect of writing `value` to output port `port`: port 2 sets the shift
/// offset (0 - 7), port 4 shifts `value` into the register from the top;
/// every other port is ignored.
pub open spec fn port_write(h: HwView, port: u8, value: u8) -> HwView {
    if port == 2 {
        HwView { shift_offset: value & 0x07, ..h }
    } else if port == 4 {
        HwView { shift_register: (h.shift_register >> 8u16) | ((value as u16) << 8u16), ..h }
    } else {
        h
    }
}

/// The Space Invaders board seen from the CPU's I/O ports.
pub struct SpaceInvadersHardware {
    // Input state
    port1_state: u8,
    port2_state: u8,
    // Configuration settings
    dip_switches: DipSwitches,
    // Shift register state
    shift_register: u16,
    shift_offset: u8,
}

impl View for SpaceInvadersHardware {
    type V = HwView;

    closed spec fn view(&self) -> HwView {
        HwView {
            port1: self.port1_state,
            port2: self.port2_state,
            dip_switches: self.dip_switches,
            shift_register: self.shift_register,
            shift_offset: self.shift_offset,
        }
    }
}

proof fn lemma_or_if(x: u8, on: bool, mask: u8)
    ensures
        (if on { x | mask } else { x }) == x | bit_if(on, mask),
{
    assert(x | 0 == x) by (bit_vector);
}

impl SpaceInvadersHardware {
    /// The shift offset stays within 0 - 7.
    #[verifier::type_invariant]
    spec fn offset_in_range(self) -> bool {
        self.shift_offset < 8
    }

    pub fn new(dip_switches: DipSwitches) -> (hw: Self)
        ensures
            hw@ == (HwView { port1: 0, port2: 0, dip_switches, shift_register: 0, shift_offset: 0 }),
    {
        Self { port1_state: 0, port2_state: 0, dip_switches, shift_register: 0, shift_offset: 0 }
    }

    /// Latches the arcade controls, and the DIP switches, into input ports
    /// 1 and 2.
    pub fn update_input(&mut self, inputs: &ArcadeInputs)
        ensures
            final(self)@ == (HwView {
                port1: port1_value(*inputs),
                port2: port2_value(old(self)@.dip_switches, *inputs),
                ..old(self)@
            }),
            bit_at(final(self)@.port1, 0) == inputs.coin,
            bit_at(final(self)@.port1, 1) == inputs.p2_start,
            bit_at(final(self)@.port1, 2) == inputs.p1_start,
            bit_at(final(self)@.port1, 3),
            bit_at(final(self)@.port1, 4) == inputs.p1_fire,
            bit_at(final(self)@.port1, 5) == inputs.p1_left,
            bit_at(final(self)@.port1, 6) == inputs.p1_right,
            !bit_at(final(self)@.port1, 7),
            bit_at(final(self)@.port2, 2) == inputs.tilt,
            bit_at(final(self)@.port2, 4) == inputs.p2_fire,
            bit_at(final(self)@.port2, 5) == inputs.p2_left,
            bit_at(final(self)@.port2, 6) == inputs.p2_right,
    {
        proof {
            lemma_input_bits(old(self)@.dip_switches, *inputs);
        }
        proof {
            use_type_invariant(&*self);
            assert((1u8 << 0u8) == 0x01 && (1u8 << 1u8) == 0x02 && (1u8 << 2u8) == 0x04 && (1u8 << 4u8) == 0x10
                && (1u8 << 5u8) == 0x20 && (1u8 << 6u8) == 0x40 && (1u8 << 7u8) == 0x80) by (bit_vector);
        }
        // --- PORT 1 ---
        let mut p1: u8 = 0b0000_1000;
        proof {
            lemma_or_if(p1, inputs.coin, 0x01);
        }
        if inputs.coin {
            p1 |= 1 << 0;
        }
        proof {
            lemma_or_if(p1, inputs.p2_start, 0x02);
        }
        if inputs.p2_start {
            p1 |= 1 << 1;
        }
        proof {
            lemma_or_if(p1, inputs.p1_start, 0x04);
        }
        if inputs.p1_start {
            p1 |= 1 << 2;
        }
        proof {
            lemma_or_if(p1, inputs.p1_fire, 0x10);
        }
        if inputs.p1_fire {
            p1 |= 1 << 4;
        }
        proof {
            lemma_or_if(p1, inputs.p1_left, 0x20);
        }
        if inputs.p1_left {
            p1 |= 1 << 5;
        }
        proof {
            lemma_or_if(p1, inputs.p1_right, 0x40);
        }
        if inputs.p1_right {
            p1 |= 1 << 6;
        }
        self.port1_state = p1;

        // --- PORT 2 ---
        let mut p2: u8 = 0x00;
        // Apply dip switches
        p2 |= self.dip_switches.starting_lives.code();
        let t = self.dip_switches.extra_ship_threshold.code();
        assert((t << 3u8) == (t * 8) as u8) by (bit_vector)
            requires
                t <= 1,
        ;
        p2 |= t << 3;
        proof {
            assert(0u8 | lives_code(self.dip_switches.starting_lives) == lives_code(self.dip_switches.starting_lives)) by (bit_vector);
            lemma_or_if(p2, !self.dip_switches.display_coin_info, 0x80);
        }
        if !self.dip_switches.display_coin_info {
            p2 |= 1 << 7;
        }
        // Apply inputs
        proof {
            lemma_or_if(p2, inputs.tilt, 0x04);
        }
        if inputs.tilt {
            p2 |= 1 << 2;
        }
        proof {
            lemma_or_if(p2, inputs.p2_fire, 0x10);
        }
        if inputs.p2_fire {
            p2 |= 1 << 4;
        }
        proof {
            lemma_or_if(p2, inputs.p2_left, 0x20);
        }
        if inputs.p2_left {
            p2 |= 1 << 5;
        }
        proof {
            lemma_or_if(p2, inputs.p2_right, 0x40);
        }
        if inputs.p2_right {
            p2 |= 1 << 6;
        }
        self.port2_state = p2;
    }
}

impl IOHandler for SpaceInvadersHardware {
    fn read_port(&self, port: u8) -> (val: u8)
        ensures
            val == port_read(self@, port),
    {
        proof {
            use_type_invariant(self);
        }
        if port == 1 {
            self.port1_state
        } else if port == 2 {
            self.port2_state
        } else if port == 3 {
            // The 8-bit window of the 16-bit register.
            (self.shift_register >> (8 - self.shift_offset) as u16) as u8
        } else {
            // Floating bus.
            0
        }
    }

    fn write_port(&mut self, port: u8, value: u8)
        ensures
            final(self)@ == port_write(old(self)@, port, value),
    {
        proof {
            use_type_invariant(&*self);
        }
        if port == 2 {
            // The offset is 0 - 7: mask out higher bits.
            let off = value & 0x07;
            assert(off < 8) by (bit_vector)
                requires
                    off == value & 0x07,
            ;
            self.shift_offset = off;
        } else if port == 4 {
            // The old upper byte moves down; the new value goes on top.
            self.shift_register = (self.shift_register >> 8) | ((value as u16) << 8);
        } else {
            // Ports 3 and 5 trigger sounds, handled elsewhere; others are unmapped.
        }
    }
}

/// After two writes to port 4, first `a` then `b`, the shift register holds
/// `b` over `a`, and port 3 reads the byte of it that ends `8 - offset`
/// bits above the bottom: with offset 0 that is `b`.
pub proof fn lemma_shift_register(h: HwView, a: u8, b: u8, offset: u8)
    requires
        offset < 8,
    ensures
        ({
            let h2 = port_write(port_write(port_write(h, 4, a), 4, b), 2, offset);
            &&& h2.shift_register == b as int * 256 + a as int
            &&& port_read(h2, 3) == ((b as int * 256 + a as int) / (pow2((8 - offset) as nat) as int)) % 256
            &&& offset == 0 ==> port_read(h2, 3) == b
        }),
{
    let r = h.shift_register;
    let r1 = (r >> 8u16) | ((a as u16) << 8u16);
    let r2 = (r1 >> 8u16) | ((b as u16) << 8u16);
    assert(r2 == b as int * 256 + a as int) by (bit_vector)
        requires
            r1 == (r >> 8u16) | ((a as u16) << 8u16),
            r2 == (r1 >> 8u16) | ((b as u16) << 8u16),
    ;
    assert(offset & 0x07 == offset) by (bit_vector)
        requires
            offset < 8,
    ;
    let sh = (8 - offset) as u16;
    let y = r2 >> sh;
    vstd::bits::lemma_u16_shr_is_div(r2, sh);
    assert((y as u8) as int == y % 256) by (bit_vector);
    if offset == 0 {
        assert((r2 >> 8u16) as u8 == b) by (bit_vector)
            requires
                r2 == b as int * 256 + a as int,
        ;
    }
}

/// On the cabinet, what an IN reads is the port value of `port_read`.
pub proof fn lemma_cabinet_input(hw: SpaceInvadersHardware, port: u8, v: u8)
    requires
        call_ensures(SpaceInvadersHardware::read_port, (&hw, port), v),
    ensures
        v == port_read(hw@, port),
{
}

/// Each control owns its documented bit of the input ports. Port 1: bit 0
/// coin, bit 1 P2 start, bit 2 P1 start, bit 3 always set, bit 4 P1 fire,
/// bit 5 P1 left, bit 6 P1 right, bit 7 clear. Port 2: bits 0 - 1 the
/// starting lives less three, bit 2 tilt, bit 3 extra ship at 1000 points,
/// bit 4 P2 fire, bit 5 P2 left, bit 6 P2 right, bit 7 coin info hidden.
pub proof fn lemma_input_bits(d: DipSwitches, i: ArcadeInputs)
    ensures
        bit_at(port1_value(i), 0) == i.coin,
        bit_at(port1_value(i), 1) == i.p2_start,
        bit_at(port1_value(i), 2) == i.p1_start,
        bit_at(port1_value(i), 3),
        bit_at(port1_value(i), 4) == i.p1_fire,
        bit_at(port1_value(i), 5) == i.p1_left,
        bit_at(port1_value(i), 6) == i.p1_right,
        !bit_at(port1_value(i), 7),
        port2_value(d, i) % 4 == match d.starting_lives {
            StartingLives::Three => 0int,
            StartingLives::Four => 1int,
            StartingLives::Five => 2int,
            StartingLives::Six => 3int,
        },
        bit_at(port2_value(d, i), 2) == i.tilt,
        bit_at(port2_value(d, i), 3) == (d.extra_ship_threshold == ExtraShipThreshold::At1000Points),
        bit_at(port2_value(d, i), 4) == i.p2_fire,
        bit_at(port2_value(d, i), 5) == i.p2_left,
        bit_at(port2_value(d, i), 6) == i.p2_right,
        bit_at(port2_value(d, i), 7) == !d.display_coin_info,
{
    lemma2_to64();
    let p1 = port1_value(i);
    let l = lives_code(d.starting_lives);
    let t = threshold_code(d.extra_ship_threshold);
    let p2 = port2_value(d, i);
    let (coin, p2s, p1s, p1f, p1l, p1r) = (i.coin, i.p2_start, i.p1_start, i.p1_fire, i.p1_left, i.p1_right);
    let (tilt, p2f, p2l, p2r, hide) = (i.tilt, i.p2_fire, i.p2_left, i.p2_right, !d.display_coin_info);
    assert(l < 4 && t < 2);
    assert({
        &&& (p1 / 1) % 2 == 1 <==> coin
        &&& (p1 / 2) % 2 == 1 <==> p2s
        &&& (p1 / 4) % 2 == 1 <==> p1s
        &&& (p1 / 8) % 2 == 1
        &&& (p1 / 16) % 2 == 1 <==> p1f
        &&& (p1 / 32) % 2 == 1 <==> p1l
        &&& (p1 / 64) % 2 == 1 <==> p1r
        &&& (p1 / 128) % 2 == 0
    }) by (bit_vector)
        requires
            p1 == 0x08 | bit_if(coin, 0x01) | bit_if(p2s, 0x02) | bit_if(p1s, 0x04) | bit_if(p1f, 0x10)
                | bit_if(p1l, 0x20) | bit_if(p1r, 0x40),
    ;
    assert({
        &&& p2 % 4 == l
        &&& (p2 / 4) % 2 == 1 <==> tilt
        &&& (p2 / 8) % 2 == 1 <==> t == 1
        &&& (p2 / 16) % 2 == 1 <==> p2f
        &&& (p2 / 32) % 2 == 1 <==> p2l
        &&& (p2 / 64) % 2 == 1 <==> p2r
        &&& (p2 / 128) % 2 == 1 <==> hide
    }) by (bit_vector)
        requires
            l < 4,
            t < 2,
            p2 == l | (t * 8) as u8 | bit_if(hide, 0x80) | bit_if(tilt, 0x04) | bit_if(p2f, 0x10) | bit_if(
                p2l,
                0x20,
            ) | bit_if(p2r, 0x40),
    ;
}

} // verus!
