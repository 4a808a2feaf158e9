use vstd::prelude::*;
use vstd::string::StringExecFns;

verus! {

/// 16-bit value of the register pair whose high byte is `hi` and low byte `lo`.
pub open spec fn pair(hi: u8, lo: u8) -> u16 {
    (hi as int * 256 + lo as int) as u16
}

/// The seven 8-bit registers.
#[allow(non_snake_case)]
pub struct Registers {
    pub A: u8,
    pub B: u8,
    pub C: u8,
    pub D: u8,
    pub E: u8,
    pub H: u8,
    pub L: u8,
}

impl Default for Registers {
    fn default() -> (r: Self)
        ensures
            r.A == 0 && r.B == 0 && r.C == 0 && r.D == 0 && r.E == 0 && r.H == 0 && r.L == 0,
    {
        Registers { A: 0, B: 0, C: 0, D: 0, E: 0, H: 0, L: 0 }
    }
}

pub(crate) proof fn lemma_pair_bytes(hi: u8, lo: u8)
    ensures
        (((hi as u16) << 8) | lo as u16) == pair(hi, lo),
{
    assert((((hi as u16) << 8) | lo as u16) == (hi as int * 256 + lo as int) as u16) by (bit_vector);
}

pub(crate) proof fn lemma_split_pair(val: u16)
    ensures
        pair((val >> 8) as u8, val as u8) == val,
        (val >> 8) as u8 == val / 256,
        val as u8 == val % 256,
{
    assert((val >> 8) as u8 == val / 256 && val as u8 == val % 256) by (bit_vector);
}

impl Registers {
    /// Value of the pair BC.
    pub open spec fn bc(&self) -> u16 {
        pair(self.B, self.C)
    }

    /// Value of the pair DE.
    pub open spec fn de(&self) -> u16 {
        pair(self.D, self.E)
    }

    /// Value of the pair HL.
    pub open spec fn hl(&self) -> u16 {
        pair(self.H, self.L)
    }

    pub fn get_bc(&self) -> (v: u16)
        ensures
            v == self.bc(),
    {
        proof {
            lemma_pair_bytes(self.B, self.C);
        }
        ((self.B as u16) << 8) | self.C as u16
    }

    pub fn get_de(&self) -> (v: u16)
        ensures
            v == self.de(),
    {
        proof {
            lemma_pair_bytes(self.D, self.E);
        }
        ((self.D as u16) << 8) | self.E as u16
    }

    pub fn get_hl(&self) -> (v: u16)
        ensures
            v == self.hl(),
    {
        proof {
            lemma_pair_bytes(self.H, self.L);
        }
        ((self.H as u16) << 8) | self.L as u16
    }

    /// Stores `val` in BC: the high byte in B, the low byte in C.
    pub fn set_bc(&mut self, val: u16)
        ensures
            final(self).B == val / 256,
            final(self).C == val % 256,
            final(self).bc() == val,
            final(self).A == old(self).A,
            final(self).D == old(self).D,
            final(self).E == old(self).E,
            final(self).H == old(self).H,
            final(self).L == old(self).L,
    {
        proof {
            lemma_split_pair(val);
        }
        self.B = (val >> 8) as u8;
        self.C = val as u8;
    }

    /// Stores `val` in DE: the high byte in D, the low byte in E.
    pub fn set_de(&mut self, val: u16)
        ensures
            final(self).D == val / 256,
            final(self).E == val % 256,
            final(self).de() == val,
            final(self).A == old(self).A,
            final(self).B == old(self).B,
            final(self).C == old(self).C,
            final(self).H == old(self).H,
            final(self).L == old(self).L,
    {
        proof {
            lemma_split_pair(val);
        }
        self.D = (val >> 8) as u8;
        self.E = val as u8;
    }

    /// Stores `val` in HL: the high byte in H, the low byte in L.
    pub fn set_hl(&mut self, val: u16)
        ensures
            final(self).H == val / 256,
            final(self).L == val % 256,
            final(self).hl() == val,
            final(self).A == old(self).A,
            final(self).B == old(self).B,
            final(self).C == old(self).C,
            final(self).D == old(self).D,
            final(self).E == old(self).E,
    {
        proof {
            lemma_split_pair(val);
        }
        self.H = (val >> 8) as u8;
        self.L = val as u8;
    }
}

/// Writing a pair and reading it back gives the value written; writing back
/// what a pair holds leaves both of its registers as they were.
pub proof fn lemma_pair_round_trip(hi: u8, lo: u8, val: u16)
    ensures
        pair((val / 256) as u8, (val % 256) as u8) == val,
        (pair(hi, lo) / 256) as u8 == hi,
        (pair(hi, lo) % 256) as u8 == lo,
{
    lemma_split_pair(val);
    assert(((hi as int * 256 + lo as int) as u16) / 256 == hi && ((hi as int * 256 + lo as int) as u16) % 256 == lo) by (nonlinear_arith);
}

/// Mask of the carry flag (bit 0).
pub const C_MASK: u8 = 0x01;
/// Mask of the parity flag (bit 2).
pub const P_MASK: u8 = 0x04;
/// Mask of the auxiliary carry flag (bit 4).
pub const AC_MASK: u8 = 0x10;
/// Mask of the zero flag (bit 6).
pub const Z_MASK: u8 = 0x40;
/// Mask of the sign flag (bit 7).
pub const S_MASK: u8 = 0x80;

/// The flag under `mask` is set in `bits`.
pub open spec fn has_flag(bits: u8, mask: u8) -> bool {
    bits & mask != 0
}

/// `bits` with the flag under `mask` set to `on`.
pub open spec fn put_flag(bits: u8, mask: u8, on: bool) -> u8 {
    if on {
        bits | mask
    } else {
        bits & !mask
    }
}

/// The bits that no flag owns hold their fixed values: bit 1 is 1, bits 3
/// and 5 are 0.
pub open spec fn fixed_bits_ok(bits: u8) -> bool {
    bits & 0x2A == 0x02
}

/// What `set_bits` stores for `value`: its five flags, with the fixed bits
/// forced to their values.
pub open spec fn psw_flags(value: u8) -> u8 {
    (value & 0xD7) | 0x02
}

/// "true" or "false".
pub open spec fn bool_text(b: bool) -> Seq<char> {
    if b {
        "true"@
    } else {
        "false"@
    }
}

/// "1" or "0".
pub open spec fn bit_text(b: bool) -> Seq<char> {
    if b {
        "1"@
    } else {
        "0"@
    }
}

/// The five flags by name, one a line.
pub open spec fn flags_text(bits: u8) -> Seq<char> {
    "sign: "@ + bool_text(has_flag(bits, S_MASK)) + ",\nzero: "@ + bool_text(has_flag(bits, Z_MASK))
        + ",\nac: "@ + bool_text(has_flag(bits, AC_MASK)) + ",\nparity: "@ + bool_text(
        has_flag(bits, P_MASK),
    ) + ",\ncarry: "@ + bool_text(has_flag(bits, C_MASK))
}

/// The flag byte in binary, the fixed bits shown with their fixed values.
pub open spec fn flags_binary_text(bits: u8) -> Seq<char> {
    "0b"@ + bit_text(has_flag(bits, S_MASK)) + bit_text(has_flag(bits, Z_MASK)) + "0"@ + bit_text(
        has_flag(bits, AC_MASK),
    ) + "0"@ + bit_text(has_flag(bits, P_MASK)) + "1"@ + bit_text(has_flag(bits, C_MASK))
}

fn bool_str(b: bool) -> (s: &'static str)
    ensures
        s@ == bool_text(b),
{
    if b {
        "true"
    } else {
        "false"
    }
}

fn bit_str(b: bool) -> (s: &'static str)
    ensures
        s@ == bit_text(b),
{
    if b {
        "1"
    } else {
        "0"
    }
}

/// Condition bits saved as a single byte:
/// bit 7 sign (s), bit 6 zero (z), bit 5 0, bit 4 auxiliary carry (ac),
/// bit 3 0, bit 2 parity (p), bit 1 1, bit 0 carry (c).
pub struct ConditionBits {
    pub bits: u8,
}

impl Default for ConditionBits {
    fn default() -> (cb: Self)
        ensures
            cb.bits == 0x02,
    {
        Self { bits: 0b0000_0010 }
    }
}

proof fn lemma_flag_masks()
    ensures
        (0x01u8 << 2u8) == 0x04u8,
        (0x01u8 << 4u8) == 0x10u8,
        (0x01u8 << 6u8) == 0x40u8,
        (0x01u8 << 7u8) == 0x80u8,
{
    assert((0x01u8 << 2u8) == 0x04u8 && (0x01u8 << 4u8) == 0x10u8 && (0x01u8 << 6u8) == 0x40u8 && (0x01u8
        << 7u8) == 0x80u8) by (bit_vector);
}

impl ConditionBits {
    pub fn c(&self) -> (r: bool)
        ensures
            r == has_flag(self.bits, C_MASK),
    {
        self.bits & 0x01 != 0
    }

    pub fn p(&self) -> (r: bool)
        ensures
            r == has_flag(self.bits, P_MASK),
    {
        proof {
            lemma_flag_masks();
        }
        self.bits & (0x01 << 2) != 0
    }

    pub fn ac(&self) -> (r: bool)
        ensures
            r == has_flag(self.bits, AC_MASK),
    {
        proof {
            lemma_flag_masks();
        }
        self.bits & (0x01 << 4) != 0
    }

    pub fn z(&self) -> (r: bool)
        ensures
            r == has_flag(self.bits, Z_MASK),
    {
        proof {
            lemma_flag_masks();
        }
        self.bits & (0x01 << 6) != 0
    }

    pub fn s(&self) -> (r: bool)
        ensures
            r == has_flag(self.bits, S_MASK),
    {
        proof {
            lemma_flag_masks();
        }
        self.bits & (0x01 << 7) != 0
    }

    pub fn set_c(&mut self, value: bool)
        ensures
            final(self).bits == put_flag(old(self).bits, C_MASK, value),
    {
        if value {
            self.bits |= 0x01;
        } else {
            self.bits &= !0x01;
        }
    }

    pub fn set_p(&mut self, value: bool)
        ensures
            final(self).bits == put_flag(old(self).bits, P_MASK, value),
    {
        proof {
            lemma_flag_masks();
        }
        if value {
            self.bits |= 0x01 << 2;
        } else {
            self.bits &= !(0x01 << 2);
        }
    }

    pub fn set_ac(&mut self, value: bool)
        ensures
            final(self).bits == put_flag(old(self).bits, AC_MASK, value),
    {
        proof {
            lemma_flag_masks();
        }
        if value {
            self.bits |= 0x01 << 4;
        } else {
            self.bits &= !(0x01 << 4);
        }
    }

    pub fn set_z(&mut self, value: bool)
        ensures
            final(self).bits == put_flag(old(self).bits, Z_MASK, value),
    {
        proof {
            lemma_flag_masks();
        }
        if value {
            self.bits |= 0x01 << 6;
        } else {
            self.bits &= !(0x01 << 6);
        }
    }

    pub fn set_s(&mut self, value: bool)
        ensures
            final(self).bits == put_flag(old(self).bits, S_MASK, value),
    {
        proof {
            lemma_flag_masks();
        }
        if value {
            self.bits |= 0x01 << 7;
        } else {
            self.bits &= !(0x01 << 7);
        }
    }

    /// The flags by name: "sign: ..,\nzero: ..,\nac: ..,\nparity: ..,\ncarry: ..".
    pub fn to_string(&self) -> (text: String)
        ensures
            text@ == flags_text(self.bits),
    {
        let mut text = "sign: ".to_owned();
        text.append(bool_str(self.s()));
        text.append(",\nzero: ");
        text.append(bool_str(self.z()));
        text.append(",\nac: ");
        text.append(bool_str(self.ac()));
        text.append(",\nparity: ");
        text.append(bool_str(self.p()));
        text.append(",\ncarry: ");
        text.append(bool_str(self.c()));
        text
    }

    /// The flag byte in binary: "0b" and then s, z, 0, ac, 0, p, 1, c.
    pub fn to_binary_string(&self) -> (text: String)
        ensures
            text@ == flags_binary_text(self.bits),
    {
        let mut text = "0b".to_owned();
        text.append(bit_str(self.s()));
        text.append(bit_str(self.z()));
        text.append("0");
        text.append(bit_str(self.ac()));
        text.append("0");
        text.append(bit_str(self.p()));
        text.append("1");
        text.append(bit_str(self.c()));
        text
    }

    /// Sets all five flags at once, keeping bits 3 and 5 at 0 and bit 1 at 1.
    pub fn set_bits(&mut self, value: u8)
        ensures
            final(self).bits == psw_flags(value),
    {
        self.bits = (value & 0b1101_0111) | 0b0000_0010;
    }
}

/// A flag reads back what was last written to it, and writing one flag
/// leaves the other four and the fixed bits as they were.
pub proof fn lemma_flag_write_read(bits: u8, value: bool)
    ensures
        has_flag(put_flag(bits, C_MASK, value), C_MASK) == value,
        has_flag(put_flag(bits, P_MASK, value), P_MASK) == value,
        has_flag(put_flag(bits, AC_MASK, value), AC_MASK) == value,
        has_flag(put_flag(bits, Z_MASK, value), Z_MASK) == value,
        has_flag(put_flag(bits, S_MASK, value), S_MASK) == value,
        put_flag(bits, C_MASK, value) & !C_MASK == bits & !C_MASK,
        put_flag(bits, P_MASK, value) & !P_MASK == bits & !P_MASK,
        put_flag(bits, AC_MASK, value) & !AC_MASK == bits & !AC_MASK,
        put_flag(bits, Z_MASK, value) & !Z_MASK == bits & !Z_MASK,
        put_flag(bits, S_MASK, value) & !S_MASK == bits & !S_MASK,
{
    assert({
        &&& has_flag(bits | 0x01, 0x01) && !has_flag(bits & !0x01u8, 0x01)
        &&& has_flag(bits | 0x04, 0x04) && !has_flag(bits & !0x04u8, 0x04)
        &&& has_flag(bits | 0x10, 0x10) && !has_flag(bits & !0x10u8, 0x10)
        &&& has_flag(bits | 0x40, 0x40) && !has_flag(bits & !0x40u8, 0x40)
        &&& has_flag(bits | 0x80, 0x80) && !has_flag(bits & !0x80u8, 0x80)
        &&& (bits | 0x01) & !0x01u8 == bits & !0x01u8 && (bits & !0x01u8) & !0x01u8 == bits & !0x01u8
        &&& (bits | 0x04) & !0x04u8 == bits & !0x04u8 && (bits & !0x04u8) & !0x04u8 == bits & !0x04u8
        &&& (bits | 0x10) & !0x10u8 == bits & !0x10u8 && (bits & !0x10u8) & !0x10u8 == bits & !0x10u8
        &&& (bits | 0x40) & !0x40u8 == bits & !0x40u8 && (bits & !0x40u8) & !0x40u8 == bits & !0x40u8
        &&& (bits | 0x80) & !0x80u8 == bits & !0x80u8 && (bits & !0x80u8) & !0x80u8 == bits & !0x80u8
    }) by (bit_vector);
}

/// No flag write and no `set_bits` can disturb the fixed bits.
pub proof fn lemma_fixed_bits_kept(bits: u8, value: bool, v: u8)
    requires
        fixed_bits_ok(bits),
    ensures
        fixed_bits_ok(put_flag(bits, C_MASK, value)),
        fixed_bits_ok(put_flag(bits, P_MASK, value)),
        fixed_bits_ok(put_flag(bits, AC_MASK, value)),
        fixed_bits_ok(put_flag(bits, Z_MASK, value)),
        fixed_bits_ok(put_flag(bits, S_MASK, value)),
        fixed_bits_ok(psw_flags(v)),
        fixed_bits_ok(0x02),
{
    assert({
        &&& bits & 0x2A == 0x02 ==> (bits | 0x01) & 0x2A == 0x02 && (bits & !0x01u8) & 0x2A == 0x02
        &&& bits & 0x2A == 0x02 ==> (bits | 0x04) & 0x2A == 0x02 && (bits & !0x04u8) & 0x2A == 0x02
        &&& bits & 0x2A == 0x02 ==> (bits | 0x10) & 0x2A == 0x02 && (bits & !0x10u8) & 0x2A == 0x02
        &&& bits & 0x2A == 0x02 ==> (bits | 0x40) & 0x2A == 0x02 && (bits & !0x40u8) & 0x2A == 0x02
        &&& bits & 0x2A == 0x02 ==> (bits | 0x80) & 0x2A == 0x02 && (bits & !0x80u8) & 0x2A == 0x02
        &&& ((v & 0xD7) | 0x02) & 0x2A == 0x02
        &&& 0x02u8 & 0x2A == 0x02
    }) by (bit_vector);
}

} // verus!
