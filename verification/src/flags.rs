use vstd::prelude::*;

verus! {

/// The status word F, one boolean per bit.
#[derive(Clone, Copy, Debug, PartialEq, Eq, Structural)]
pub struct Flags {
    /// Sign, bit 7.
    pub s: bool,
    /// Zero, bit 6.
    pub z: bool,
    /// Undocumented copy of result bit 5 (Y), bit 5.
    pub b5: bool,
    /// Half carry, bit 4.
    pub h: bool,
    /// Undocumented copy of result bit 3 (X), bit 3.
    pub b3: bool,
    /// Parity / overflow, bit 2.
    pub p: bool,
    /// Add / subtract, bit 1.
    pub n: bool,
    /// Carry, bit 0.
    pub c: bool,
}

/// `weight` if `on`, else zero: the contribution of one flag to the packed byte.
pub open spec fn flag_bit(on: bool, weight: u8) -> u8 {
    if on {
        weight
    } else {
        0u8
    }
}

impl Flags {
    /// The word with every flag set: the state after power-on.
    pub open spec fn all_set() -> Flags {
        Flags { s: true, z: true, b5: true, h: true, b3: true, p: true, n: true, c: true }
    }

    /// The word with every flag clear.
    pub open spec fn cleared() -> Flags {
        Flags { s: false, z: false, b5: false, h: false, b3: false, p: false, n: false, c: false }
    }

    /// The packed byte: bits 7..0 are S, Z, Y, H, X, P/V, N, C.
    pub open spec fn pack(self) -> u8 {
        flag_bit(self.s, 0x80) | flag_bit(self.z, 0x40) | flag_bit(self.b5, 0x20) | flag_bit(
            self.h,
            0x10,
        ) | flag_bit(self.b3, 0x08) | flag_bit(self.p, 0x04) | flag_bit(self.n, 0x02) | flag_bit(
            self.c,
            0x01,
        )
    }

    /// The flag word that the byte `val` packs.
    pub open spec fn unpack(val: u8) -> Flags {
        Flags {
            s: val & 0x80 != 0,
            z: val & 0x40 != 0,
            b5: val & 0x20 != 0,
            h: val & 0x10 != 0,
            b3: val & 0x08 != 0,
            p: val & 0x04 != 0,
            n: val & 0x02 != 0,
            c: val & 0x01 != 0,
        }
    }

    /// The power-on flag word: every flag set.
    pub fn new() -> (flags: Self)
        ensures
            flags == Flags::all_set(),
    {
        Self { s: true, z: true, b5: true, h: true, b3: true, p: true, n: true, c: true }
    }

    /// Packs the eight flags into the F byte.
    pub fn to_byte(&self) -> (val: u8)
        ensures
            val == self.pack(),
    {
        let s: u8 = if self.s { 0x80 } else { 0 };
        let z: u8 = if self.z { 0x40 } else { 0 };
        let b5: u8 = if self.b5 { 0x20 } else { 0 };
        let h: u8 = if self.h { 0x10 } else { 0 };
        let b3: u8 = if self.b3 { 0x08 } else { 0 };
        let p: u8 = if self.p { 0x04 } else { 0 };
        let n: u8 = if self.n { 0x02 } else { 0 };
        let c: u8 = if self.c { 0x01 } else { 0 };
        s | z | b5 | h | b3 | p | n | c
    }

    /// Loads the eight flags from the F byte `val`.
    pub fn from_byte(&mut self, val: u8)
        ensures
            *final(self) == Flags::unpack(val),
    {
        self.s = (val & 0x80) != 0;
        self.z = (val & 0x40) != 0;
        self.b5 = (val & 0x20) != 0;
        self.h = (val & 0x10) != 0;
        self.b3 = (val & 0x08) != 0;
        self.p = (val & 0x04) != 0;
        self.n = (val & 0x02) != 0;
        self.c = (val & 0x01) != 0;
    }

    /// Clears all eight flags.
    pub fn reset(&mut self)
        ensures
            *final(self) == Flags::cleared(),
    {
        self.s = false;
        self.z = false;
        self.b5 = false;
        self.h = false;
        self.b3 = false;
        self.p = false;
        self.n = false;
        self.c = false;
    }
}

/// Each bit of an OR of single-bit bytes is the byte with that bit.
proof fn lemma_bits_of_sum(s: u8, z: u8, b5: u8, h: u8, b3: u8, p: u8, n: u8, c: u8)
    by (bit_vector)
    requires
        s == 0 || s == 0x80,
        z == 0 || z == 0x40,
        b5 == 0 || b5 == 0x20,
        h == 0 || h == 0x10,
        b3 == 0 || b3 == 0x08,
        p == 0 || p == 0x04,
        n == 0 || n == 0x02,
        c == 0 || c == 0x01,
    ensures
        (s | z | b5 | h | b3 | p | n | c) & 0x80 == s,
        (s | z | b5 | h | b3 | p | n | c) & 0x40 == z,
        (s | z | b5 | h | b3 | p | n | c) & 0x20 == b5,
        (s | z | b5 | h | b3 | p | n | c) & 0x10 == h,
        (s | z | b5 | h | b3 | p | n | c) & 0x08 == b3,
        (s | z | b5 | h | b3 | p | n | c) & 0x04 == p,
        (s | z | b5 | h | b3 | p | n | c) & 0x02 == n,
        (s | z | b5 | h | b3 | p | n | c) & 0x01 == c,
{
}

/// A byte is the OR of its eight bits.
proof fn lemma_sum_of_bits(val: u8)
    by (bit_vector)
    ensures
        (val & 0x80) | (val & 0x40) | (val & 0x20) | (val & 0x10) | (val & 0x08) | (val & 0x04) | (
        val & 0x02) | (val & 0x01) == val,
        val & 0x80 == 0 || val & 0x80 == 0x80,
        val & 0x40 == 0 || val & 0x40 == 0x40,
        val & 0x20 == 0 || val & 0x20 == 0x20,
        val & 0x10 == 0 || val & 0x10 == 0x10,
        val & 0x08 == 0 || val & 0x08 == 0x08,
        val & 0x04 == 0 || val & 0x04 == 0x04,
        val & 0x02 == 0 || val & 0x02 == 0x02,
        val & 0x01 == 0 || val & 0x01 == 0x01,
{
}

/// Unpacking a packed flag word gives the same flags back.
pub proof fn lemma_unpack_pack(flags: Flags)
    ensures
        Flags::unpack(flags.pack()) == flags,
{
    lemma_bits_of_sum(
        flag_bit(flags.s, 0x80),
        flag_bit(flags.z, 0x40),
        flag_bit(flags.b5, 0x20),
        flag_bit(flags.h, 0x10),
        flag_bit(flags.b3, 0x08),
        flag_bit(flags.p, 0x04),
        flag_bit(flags.n, 0x02),
        flag_bit(flags.c, 0x01),
    );
}

/// Packing the flags unpacked from a byte gives the same byte back, for each of the
/// 256 bytes.
pub proof fn lemma_pack_unpack(val: u8)
    ensures
        Flags::unpack(val).pack() == val,
{
    lemma_sum_of_bits(val);
}

} // verus!
