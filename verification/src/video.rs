use vstd::prelude::*;
use vstd::arithmetic::div_mod::{lemma_fundamental_div_mod, lemma_fundamental_div_mod_converse, lemma_mod_bound};
use crate::clock::FixedClock;
use crate::interrupt::Int;
use crate::utils::bit_at;
use vstd::arithmetic::power2::lemma2_to64;

verus! {

/// Size of the video RAM at 0x2400 - 0x3FFF.
pub const VRAM_SIZE: usize = 7168;
pub const WIDTH: usize = 224;
pub const HEIGHT: usize = 256;
/// One RGB triple per pixel of the rotated screen.
pub const PIX_BUF_LEN: usize = 172032;
/// Scanlines per frame.
pub const SCANLINES: u16 = 262;

/// Number of pixels on the screen.
pub open spec fn num_pixels() -> int {
    WIDTH * HEIGHT
}

/// Index in video RAM of the byte that holds screen pixel `p` (row-major in
/// the 224 x 256 rotated picture). The cabinet's monitor is turned by 90
/// degrees: screen column `x` is RAM row `x`, and screen row `y` is RAM
/// column `255 - y`, eight columns to a byte.
pub open spec fn source_byte(p: int) -> int {
    (p % 224) * 32 + (255 - p / 224) / 8
}

/// Bit of that byte that holds screen pixel `p`.
pub open spec fn source_bit(p: int) -> int {
    (255 - p / 224) % 8
}

/// Screen pixel `p` is lit.
pub open spec fn pixel_on(vram: Seq<u8>, p: int) -> bool {
    (vram[source_byte(p)] >> (source_bit(p) as u8)) & 1 == 1
}

/// The RGB picture that video RAM `vram` shows: white for a lit pixel,
/// black otherwise.
pub open spec fn frame(vram: Seq<u8>) -> Seq<u8> {
    Seq::new(PIX_BUF_LEN as nat, |q: int| if pixel_on(vram, q / 3) { 255u8 } else { 0u8 })
}

/// The scanline reaches `target` at one of the `n` lines after `start`.
pub open spec fn passes_line(start: int, n: int, target: int) -> bool {
    exists|j: int| 1 <= j <= n && #[trigger] ((start + j) % 262) == target
}

/// `flags` with `bit` added when `cond` holds.
pub open spec fn raise_if(flags: u8, cond: bool, bit: u8) -> u8 {
    if cond {
        flags | bit
    } else {
        flags
    }
}

/// Video RAM, the picture decoded from it and the scanline counter.
pub struct Video {
    clock: FixedClock<128>,
    vram: Vec<u8>,
    pub pixel_buffer: Vec<u8>,
    pub img_ready: bool,
    scanline: u16,
}

impl Video {
    /// Contents of video RAM.
    pub closed spec fn vram(&self) -> Seq<u8> {
        self.vram@
    }

    /// The RGB picture buffer.
    pub closed spec fn pixels(&self) -> Seq<u8> {
        self.pixel_buffer@
    }

    /// A new picture was drawn by the last step.
    pub closed spec fn ready(&self) -> bool {
        self.img_ready
    }

    /// Current scanline.
    pub closed spec fn scanline(&self) -> u16 {
        self.scanline
    }

    /// Cycles held by the scanline clock towards its next tick.
    pub closed spec fn clock_cycles(&self) -> usize {
        self.clock.cycles
    }

    pub open spec fn wf(&self) -> bool {
        &&& self.vram().len() == VRAM_SIZE
        &&& self.pixels().len() == PIX_BUF_LEN
        &&& self.scanline() < SCANLINES
        &&& self.clock_cycles() < 128
    }

    pub fn new() -> (v: Self)
        ensures
            v.wf(),
            forall|i: int| 0 <= i < VRAM_SIZE ==> #[trigger] v.vram()[i] == 0,
            forall|i: int| 0 <= i < PIX_BUF_LEN ==> #[trigger] v.pixels()[i] == 0,
            !v.ready(),
            v.scanline() == 0,
            v.clock_cycles() == 0,
    {
        Self {
            clock: FixedClock::new(),
            vram: vec![0u8; VRAM_SIZE],
            pixel_buffer: vec![0u8; PIX_BUF_LEN],
            img_ready: false,
            scanline: 0,
        }
    }

    /// Advances the beam by `cycles` CPU cycles: one scanline every 128
    /// cycles, 262 lines a frame. Reaching line 96 raises the half-screen
    /// interrupt; reaching line 224 raises VBlank and redraws the picture.
    pub fn step(&mut self, ints: &mut Int, cycles: usize)
        requires
            old(self).wf(),
            old(self).clock_cycles() + cycles <= usize::MAX,
        ensures
            final(self).wf(),
            ({
                let n = (old(self).clock_cycles() + cycles) / 128;
                let s = old(self).scanline() as int;
                let half = passes_line(s, n, 96);
                let vblank = passes_line(s, n, 224);
                &&& final(self).clock_cycles() == (old(self).clock_cycles() + cycles) % 128
                &&& final(self).scanline() == (s + n) % 262
                &&& final(ints)@ == raise_if(raise_if(old(ints)@, half, 2), vblank, 4)
                &&& final(self).ready() == vblank
                &&& final(self).pixels() == if vblank {
                    frame(old(self).vram())
                } else {
                    old(self).pixels()
                }
            }),
            final(self).vram() == old(self).vram(),
    {
        self.img_ready = false;
        let n = self.clock.step(cycles);
        let ghost s = self.scanline as int;
        let ghost int0 = ints@;
        let ghost buf0 = self.pixel_buffer@;
        let mut t: usize = 0;
        while t < n
            invariant
                0 <= t <= n,
                self.wf(),
                self.vram() == old(self).vram(),
                self.clock_cycles() == (old(self).clock_cycles() + cycles) % 128,
                self.scanline() == (s + t) % 262,
                ints@ == raise_if(raise_if(int0, passes_line(s, t as int, 96), 2), passes_line(s, t as int, 224), 4),
                self.img_ready == passes_line(s, t as int, 224),
                self.pixel_buffer@ == if passes_line(s, t as int, 224) {
                    frame(old(self).vram())
                } else {
                    buf0
                },
            decreases n - t,
        {
            proof {
                lemma_passes_step(s, t as int, 96);
                lemma_passes_step(s, t as int, 224);
                vstd::arithmetic::div_mod::lemma_add_mod_noop(s + t, 1, 262);
                lemma_mod_bound(s + t, 262);
                lemma_raise(ints@, passes_line(s, t as int, 96), passes_line(s, t as int, 224), int0);
                assert(crate::interrupt::int_bit(1) == 2 && crate::interrupt::int_bit(2) == 4) by (bit_vector);
            }
            self.scanline += 1;
            self.scanline %= 262;
            if self.scanline == 96 {
                // Half-screen interrupt.
                ints.set_int(Int::HALF_SCREEN);
            } else if self.scanline == 224 {
                // VBlank interrupt.
                ints.set_int(Int::VBLANK);
                self.render();
            }
            t += 1;
        }
    }

    /// Decodes the whole of video RAM into the RGB picture.
    fn render(&mut self)
        requires
            old(self).wf(),
        ensures
            final(self).wf(),
            final(self).pixels() == frame(old(self).vram()),
            final(self).ready(),
            final(self).vram() == old(self).vram(),
            final(self).scanline() == old(self).scanline(),
            final(self).clock_cycles() == old(self).clock_cycles(),
    {
        let ghost vram = self.vram@;
        let mut i: usize = 0;
        while i < VRAM_SIZE
            invariant
                0 <= i <= VRAM_SIZE,
                self.wf(),
                self.vram@ == vram,
                self.scanline() == old(self).scanline(),
                self.clock_cycles() == old(self).clock_cycles(),
                forall|q: int|
                    0 <= q < PIX_BUF_LEN && source_byte(q / 3) < i ==> #[trigger] self.pixel_buffer@[q]
                        == frame(vram)[q],
            decreases VRAM_SIZE - i,
        {
            let byte = self.vram[i];
            // Unrotated coordinates of the byte.
            let unrotated_y = i / 32;
            let unrotated_x_base = (i % 32) * 8;
            let mut bit: usize = 0;
            while bit < 8
                invariant
                    0 <= i < VRAM_SIZE,
                    0 <= bit <= 8,
                    byte == vram[i as int],
                    unrotated_y == i / 32,
                    unrotated_x_base == (i % 32) * 8,
                    self.wf(),
                    self.vram@ == vram,
                    self.scanline() == old(self).scanline(),
                    self.clock_cycles() == old(self).clock_cycles(),
                    forall|q: int|
                        0 <= q < PIX_BUF_LEN && (source_byte(q / 3) < i || (source_byte(q / 3) == i
                            && source_bit(q / 3) < bit)) ==> #[trigger] self.pixel_buffer@[q]
                            == frame(vram)[q],
                decreases 8 - bit,
            {
                proof {
                    lemma_pixel_of(i as int, bit as int);
                }
                let pixel = (byte >> bit) & 1 == 1;
                let unrotated_x = unrotated_x_base + bit;
                // 90-degree counter-clockwise rotation.
                let rotated_x = unrotated_y;
                let rotated_y = 255 - unrotated_x;
                let buffer_index = (rotated_y * WIDTH + rotated_x) * 3;
                let color: u8 = if pixel {
                    255
                } else {
                    0
                };
                let ghost p = rotated_y * WIDTH + rotated_x;
                proof {
                    assert(pixel == pixel_on(vram, p)) by {
                        assert(source_bit(p) == bit);
                        assert(source_byte(p) == i);
                        let sb = bit as u8;
                        assert(((byte >> bit) & 1 == 1) == ((byte >> sb) & 1 == 1)) by (bit_vector)
                            requires
                                bit < 8,
                                sb == bit as u8,
                        ;
                    }
                    lemma_div3(p, 0);
                    lemma_div3(p, 1);
                    lemma_div3(p, 2);
                }
                self.pixel_buffer.set(buffer_index, color);
                self.pixel_buffer.set(buffer_index + 1, color);
                self.pixel_buffer.set(buffer_index + 2, color);
                proof {
                    assert forall|q: int|
                        0 <= q < PIX_BUF_LEN && (source_byte(q / 3) < i || (source_byte(q / 3) == i
                            && source_bit(q / 3) < bit + 1)) implies #[trigger] self.pixel_buffer@[q]
                        == frame(vram)[q] by {
                        lemma_div3_of(q);
                        lemma_pixel_decompose(q / 3);
                        if source_byte(q / 3) == i && source_bit(q / 3) == bit {
                            assert(q / 3 == p);
                        }
                    }
                }
                bit += 1;
            }
            proof {
                assert forall|q: int|
                    0 <= q < PIX_BUF_LEN && source_byte(q / 3) < i + 1 implies #[trigger] self.pixel_buffer@[q]
                    == frame(vram)[q] by {
                    lemma_div3_of(q);
                    lemma_pixel_decompose(q / 3);
                }
            }
            i += 1;
        }
        proof {
            assert forall|q: int| 0 <= q < PIX_BUF_LEN implies #[trigger] self.pixel_buffer@[q] == frame(vram)[q] by {
                lemma_div3_of(q);
                lemma_pixel_decompose(q / 3);
            }
            assert(self.pixel_buffer@ =~= frame(vram));
        }
        self.img_ready = true;
    }

    /// Read from VRAM (0x2400 - 0x3FFF on the bus).
    pub fn read_vram(&self, addr: u16) -> (val: u8)
        requires
            self.wf(),
            addr < VRAM_SIZE,
        ensures
            val == self.vram()[addr as int],
    {
        self.vram[addr as usize]
    }

    /// Write to VRAM (0x2400 - 0x3FFF on the bus).
    pub fn write_vram(&mut self, addr: u16, val: u8)
        requires
            old(self).wf(),
            addr < VRAM_SIZE,
        ensures
            final(self).wf(),
            final(self).vram() == old(self).vram().update(addr as int, val),
            final(self).pixels() == old(self).pixels(),
            final(self).ready() == old(self).ready(),
            final(self).scanline() == old(self).scanline(),
            final(self).clock_cycles() == old(self).clock_cycles(),
    {
        self.vram.set(addr as usize, val);
    }
}

proof fn lemma_div3(p: int, k: int)
    requires
        0 <= k < 3,
    ensures
        (3 * p + k) / 3 == p,
        (p * 3 + k) / 3 == p,
{
    lemma_fundamental_div_mod_converse(3 * p + k, 3, p, k);
}

proof fn lemma_div3_of(q: int)
    requires
        0 <= q < PIX_BUF_LEN,
    ensures
        0 <= q / 3 < num_pixels(),
        q == (q / 3) * 3 + q % 3,
        0 <= q % 3 < 3,
{
    lemma_fundamental_div_mod(q, 3);
    lemma_mod_bound(q, 3);
}

/// Every pixel comes from exactly one bit of video RAM, and the pixel can be
/// recovered from that byte and bit.
proof fn lemma_pixel_decompose(p: int)
    requires
        0 <= p < num_pixels(),
    ensures
        0 <= source_byte(p) < VRAM_SIZE,
        0 <= source_bit(p) < 8,
        p == (255 - ((source_byte(p) % 32) * 8 + source_bit(p))) * 224 + source_byte(p) / 32,
{
    let x = p % 224;
    let y = p / 224;
    lemma_fundamental_div_mod(p, 224);
    lemma_mod_bound(p, 224);
    assert(0 <= y < 256) by {
        vstd::arithmetic::div_mod::lemma_div_pos_is_pos(p, 224);
        vstd::arithmetic::div_mod::lemma_div_is_ordered(p, 57343, 224);
    }
    let ux = 255 - y;
    lemma_fundamental_div_mod(ux, 8);
    lemma_mod_bound(ux, 8);
    assert(0 <= ux / 8 < 32) by {
        vstd::arithmetic::div_mod::lemma_div_pos_is_pos(ux, 8);
        vstd::arithmetic::div_mod::lemma_div_is_ordered(ux, 255, 8);
    }
    let sb = x * 32 + ux / 8;
    lemma_fundamental_div_mod_converse(sb, 32, x, ux / 8);
    assert(sb < 7168) by (nonlinear_arith)
        requires
            sb == x * 32 + ux / 8,
            0 <= x < 224,
            0 <= ux / 8 < 32,
    ;
    assert(0 <= sb) by (nonlinear_arith)
        requires
            sb == x * 32 + ux / 8,
            0 <= x,
            0 <= ux / 8,
    ;
}

/// The pixel that bit `bit` of video RAM byte `i` draws.
proof fn lemma_pixel_of(i: int, bit: int)
    requires
        0 <= i < VRAM_SIZE,
        0 <= bit < 8,
    ensures
        ({
            let ux = (i % 32) * 8 + bit;
            let p = (255 - ux) * 224 + i / 32;
            &&& 0 <= ux < 256
            &&& 0 <= i / 32 < 224
            &&& 0 <= p < num_pixels()
            &&& source_byte(p) == i
            &&& source_bit(p) == bit
            &&& 0 <= 3 * p
            &&& 3 * p + 2 < PIX_BUF_LEN
        }),
{
    let ux = (i % 32) * 8 + bit;
    lemma_fundamental_div_mod(i, 32);
    lemma_mod_bound(i, 32);
    assert(0 <= i / 32 < 224) by {
        vstd::arithmetic::div_mod::lemma_div_pos_is_pos(i, 32);
        vstd::arithmetic::div_mod::lemma_div_is_ordered(i, 7167, 32);
    }
    assert(0 <= ux < 256);
    let p = (255 - ux) * 224 + i / 32;
    assert(0 <= p < 57344) by (nonlinear_arith)
        requires
            p == (255 - ux) * 224 + i / 32,
            0 <= ux < 256,
            0 <= i / 32 < 224,
    ;
    lemma_fundamental_div_mod_converse(p, 224, 255 - ux, i / 32);
    lemma_fundamental_div_mod_converse(ux, 8, i % 32, bit);
    assert(source_byte(p) == (i / 32) * 32 + i % 32);
}

/// One more scanline passes `target` iff the earlier ones did or the new
/// line is `target`.
proof fn lemma_passes_step(s: int, t: int, target: int)
    requires
        t >= 0,
    ensures
        passes_line(s, t + 1, target) == (passes_line(s, t, target) || (s + (t + 1)) % 262 == target),
{
    if passes_line(s, t, target) {
        let j = choose|j: int| 1 <= j <= t && #[trigger] ((s + j) % 262) == target;
        assert(1 <= j <= t + 1 && (s + j) % 262 == target);
    }
    if (s + (t + 1)) % 262 == target {
        assert(1 <= t + 1 <= t + 1 && (s + (t + 1)) % 262 == target);
    }
    if passes_line(s, t + 1, target) {
        let j = choose|j: int| 1 <= j <= t + 1 && #[trigger] ((s + j) % 262) == target;
        if j <= t {
            assert(1 <= j <= t && (s + j) % 262 == target);
        }
    }
}

proof fn lemma_raise(x: u8, h: bool, v: bool, base: u8)
    ensures
        x == raise_if(raise_if(base, h, 2), v, 4) ==> x | 2 == raise_if(raise_if(base, true, 2), v, 4),
        x == raise_if(raise_if(base, h, 2), v, 4) ==> x | 4 == raise_if(raise_if(base, h, 2), true, 4),
{
    assert({
        &&& ((base | 2) | 4) | 2 == (base | 2) | 4
        &&& (base | 4) | 2 == (base | 2) | 4
        &&& (base | 2) | 2 == base | 2
        &&& ((base | 2) | 4) | 4 == (base | 2) | 4
        &&& (base | 4) | 4 == base | 4
    }) by (bit_vector);
}

/// The picture shows every bit of video RAM exactly once: screen pixel `p`
/// is lit iff bit `source_bit(p)` of byte `source_byte(p)` is set, and
/// distinct pixels come from distinct bits.
pub proof fn lemma_frame_is_bijective(vram: Seq<u8>, p1: int, p2: int)
    requires
        vram.len() == VRAM_SIZE,
        0 <= p1 < num_pixels(),
        0 <= p2 < num_pixels(),
        p1 != p2,
    ensures
        0 <= source_byte(p1) < VRAM_SIZE,
        0 <= source_bit(p1) < 8,
        source_byte(p1) != source_byte(p2) || source_bit(p1) != source_bit(p2),
        frame(vram)[3 * p1] == if pixel_on(vram, p1) { 255u8 } else { 0u8 },
        frame(vram)[3 * p1] == frame(vram)[3 * p1 + 1] && frame(vram)[3 * p1 + 1] == frame(vram)[3 * p1 + 2],
{
    lemma_pixel_decompose(p1);
    lemma_pixel_decompose(p2);
    lemma_div3(p1, 0);
    lemma_div3(p1, 1);
    lemma_div3(p1, 2);
}

/// Screen pixel `p` is white, its three bytes 255, when bit `source_bit(p)`
/// of video RAM byte `source_byte(p)` is set, and black, its three bytes 0,
/// when that bit is clear; no other bit of the byte plays a part.
pub proof fn lemma_frame_pixels(vram: Seq<u8>, p: int)
    requires
        vram.len() == VRAM_SIZE,
        0 <= p < num_pixels(),
    ensures
        bit_at(vram[source_byte(p)], source_bit(p) as nat) ==> frame(vram)[3 * p] == 255 && frame(vram)[3
            * p + 1] == 255 && frame(vram)[3 * p + 2] == 255,
        !bit_at(vram[source_byte(p)], source_bit(p) as nat) ==> frame(vram)[3 * p] == 0 && frame(vram)[3 * p
            + 1] == 0 && frame(vram)[3 * p + 2] == 0,
{
    lemma_pixel_decompose(p);
    lemma_div3(p, 0);
    lemma_div3(p, 1);
    lemma_div3(p, 2);
    lemma2_to64();
    let v = vram[source_byte(p)];
    let k = source_bit(p) as u8;
    assert({
        &&& ((v >> 0u8) & 1 == 1) == (v / 1 % 2 == 1)
        &&& ((v >> 1u8) & 1 == 1) == (v / 2 % 2 == 1)
        &&& ((v >> 2u8) & 1 == 1) == (v / 4 % 2 == 1)
        &&& ((v >> 3u8) & 1 == 1) == (v / 8 % 2 == 1)
        &&& ((v >> 4u8) & 1 == 1) == (v / 16 % 2 == 1)
        &&& ((v >> 5u8) & 1 == 1) == (v / 32 % 2 == 1)
        &&& ((v >> 6u8) & 1 == 1) == (v / 64 % 2 == 1)
        &&& ((v >> 7u8) & 1 == 1) == (v / 128 % 2 == 1)
    }) by (bit_vector);
    assert(pixel_on(vram, p) == bit_at(v, source_bit(p) as nat));
}

/// Counting lines in two runs: the target is passed in the first `n1`
/// lines after `s` or in the `n2` lines after where the first run ended
/// iff it is passed in the `n1 + n2` lines after `s`.
proof fn lemma_passes_split(s: int, n1: int, n2: int, target: int)
    requires
        n1 >= 0,
        n2 >= 0,
    ensures
        (passes_line(s, n1, target) || passes_line((s + n1) % 262, n2, target)) == passes_line(s, n1 + n2, target),
{
    if passes_line(s, n1, target) {
        let j = choose|j: int| 1 <= j <= n1 && #[trigger] ((s + j) % 262) == target;
        assert(1 <= j <= n1 + n2 && (s + j) % 262 == target);
    }
    if passes_line((s + n1) % 262, n2, target) {
        let j = choose|j: int| 1 <= j <= n2 && #[trigger] (((s + n1) % 262 + j) % 262) == target;
        vstd::arithmetic::div_mod::lemma_add_mod_noop_right(j, s + n1, 262);
        assert(1 <= n1 + j <= n1 + n2 && (s + (n1 + j)) % 262 == target);
    }
    if passes_line(s, n1 + n2, target) {
        let j = choose|j: int| 1 <= j <= n1 + n2 && #[trigger] ((s + j) % 262) == target;
        if j > n1 {
            let k = j - n1;
            vstd::arithmetic::div_mod::lemma_add_mod_noop_right(k, s + n1, 262);
            assert(1 <= k <= n2 && ((s + n1) % 262 + k) % 262 == target);
        } else {
            assert(1 <= j <= n1 && (s + j) % 262 == target);
        }
    }
}

/// Two video steps, by `a` and then by `b` cycles, leave the clock and the
/// scanline where one step by `a + b` cycles does, and pass a given line
/// (so raise its interrupt) iff that one step does.
pub proof fn lemma_video_steps_compose(held: int, s: int, a: int, b: int, target: int)
    requires
        0 <= held < 128,
        0 <= s < 262,
        a >= 0,
        b >= 0,
    ensures
        ({
            let n1 = (held + a) / 128;
            let held1 = (held + a) % 128;
            let s1 = (s + n1) % 262;
            let n2 = (held1 + b) / 128;
            let n = (held + a + b) / 128;
            &&& (held1 + b) % 128 == (held + a + b) % 128
            &&& (s1 + n2) % 262 == (s + n) % 262
            &&& (passes_line(s, n1, target) || passes_line(s1, n2, target)) == passes_line(s, n, target)
        }),
{
    crate::clock::lemma_clock_steps_compose(held, a, b, 128);
    let n1 = (held + a) / 128;
    let n2 = ((held + a) % 128 + b) / 128;
    vstd::arithmetic::div_mod::lemma_div_pos_is_pos(held + a, 128);
    vstd::arithmetic::div_mod::lemma_mod_pos_bound(held + a, 128);
    vstd::arithmetic::div_mod::lemma_div_pos_is_pos((held + a) % 128 + b, 128);
    vstd::arithmetic::div_mod::lemma_add_mod_noop_right(n2, s + n1, 262);
    lemma_passes_split(s, n1, n2, target);
}

} // verus!
