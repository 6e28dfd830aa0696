use vstd::prelude::*;

verus! {

/// The high byte of a 16-bit word.
pub open spec fn high(v: u16) -> u8 {
    (v / 256) as u8
}

/// The low byte of a 16-bit word.
pub open spec fn low(v: u16) -> u8 {
    (v % 256) as u8
}

/// The 16-bit word with high byte `h` and low byte `l`.
pub open spec fn word(h: u8, l: u8) -> u16 {
    (h * 256 + l) as u16
}

/// The integer `v` reduced modulo 2^8.
pub open spec fn wrap_byte(v: int) -> u8 {
    (v % 0x100) as u8
}

/// The integer `v` reduced modulo 2^16.
pub open spec fn wrap_word(v: int) -> u16 {
    (v % 0x10000) as u16
}

/// The byte `v` read as a two's complement number, in -128..=127.
pub open spec fn signed(v: u8) -> int {
    if v >= 0x80 {
        v - 0x100
    } else {
        v as int
    }
}

/// The word `v` read as a two's complement number, in -32768..=32767.
pub open spec fn signed_word(v: u16) -> int {
    if v >= 0x8000 {
        v - 0x10000
    } else {
        v as int
    }
}

/// `base` moved by the signed displacement byte `d`, modulo 2^16.
pub open spec fn displaced(base: u16, d: u8) -> u16 {
    wrap_word(base + signed(d))
}

/// Bit `i` of `v` as 0 or 1.
pub open spec fn bit_at(v: u8, i: u8) -> int {
    ((v >> i) & 1) as int
}

/// How many of the eight bits of `v` are set.
pub open spec fn ones(v: u8) -> int {
    bit_at(v, 0) + bit_at(v, 1) + bit_at(v, 2) + bit_at(v, 3) + bit_at(v, 4) + bit_at(v, 5)
        + bit_at(v, 6) + bit_at(v, 7)
}

/// True when an even number of bits of `v` are set.
pub open spec fn even_parity(v: u8) -> bool {
    ones(v) % 2 == 0
}

/// The high byte of `v`.
pub fn hi(v: u16) -> (r: u8)
    ensures
        r == high(v),
{
    (v / 256) as u8
}

/// The low byte of `v`.
pub fn lo(v: u16) -> (r: u8)
    ensures
        r == low(v),
{
    (v % 256) as u8
}

/// Joins a high and a low byte into a word.
pub fn make_word(h: u8, l: u8) -> (r: u16)
    ensures
        r == word(h, l),
        high(r) == h,
        low(r) == l,
{
    (h as u16) * 256 + (l as u16)
}

/// Adds the signed displacement `d` to `base`, wrapping at 16 bits.
pub fn displace(base: u16, d: u8) -> (r: u16)
    ensures
        r == displaced(base, d),
{
    if d < 0x80 {
        base.wrapping_add(d as u16)
    } else {
        base.wrapping_sub(0x100 - (d as u16))
    }
}

/// Whether `v` has even parity.
pub fn parity(v: u8) -> (p: bool)
    ensures
        p == even_parity(v),
{
    let a = v ^ (v >> 4);
    let b = a ^ (a >> 2);
    let c = b ^ (b >> 1);
    assert(((((v ^ (v >> 4)) ^ ((v ^ (v >> 4)) >> 2)) ^ (((v ^ (v >> 4)) ^ ((v ^ (v >> 4)) >> 2))
        >> 1)) & 1 == 0) == ((((v >> 0u8) & 1) + ((v >> 1u8) & 1) + ((v >> 2u8) & 1) + ((v >> 3u8)
        & 1) + ((v >> 4u8) & 1) + ((v >> 5u8) & 1) + ((v >> 6u8) & 1) + ((v >> 7u8) & 1)) % 2 == 0))
        by (bit_vector);
    (c & 1) == 0
}

} // verus!
