use crate::arith::{even_parity, high, signed, signed_word, wrap_byte, wrap_word};
use crate::flags::Flags;
use vstd::prelude::*;

verus! {

/// 1 for a set carry, 0 for a clear one.
pub open spec fn carry_in(carry: bool) -> int {
    if carry {
        1
    } else {
        0
    }
}

/// `f` with the undocumented flags Y and X copied from bits 5 and 3 of `r`.
pub open spec fn with_xy(f: Flags, r: u8) -> Flags {
    Flags { b5: r & 0x20 != 0, b3: r & 0x08 != 0, ..f }
}

/// `f` with S, Z, Y and X taken from the result byte `r`.
pub open spec fn with_szxy(f: Flags, r: u8) -> Flags {
    Flags { s: r >= 0x80, z: r == 0, ..with_xy(f, r) }
}

/// The sum `a + d + carry`, modulo 2^8.
pub open spec fn add_result(a: u8, d: u8, carry: bool) -> u8 {
    wrap_byte(a + d + carry_in(carry))
}

/// The flags after `a + d + carry`: S, Z, Y, X from the result; H a carry out of
/// bit 3; P/V signed overflow; N clear; C a carry out of bit 7.
pub open spec fn add_flags(a: u8, d: u8, carry: bool) -> Flags {
    let c = carry_in(carry);
    let signed_sum = signed(a) + signed(d) + c;
    with_szxy(
        Flags {
            s: false,
            z: false,
            b5: false,
            h: a % 16 + d % 16 + c > 15,
            b3: false,
            p: signed_sum > 127 || signed_sum < -128,
            n: false,
            c: a + d + c > 255,
        },
        add_result(a, d, carry),
    )
}

/// The difference `a - d - carry`, modulo 2^8.
pub open spec fn sub_result(a: u8, d: u8, carry: bool) -> u8 {
    wrap_byte(a - d - carry_in(carry))
}

/// The flags after `a - d - carry`: S, Z, Y, X from the result; H a borrow into
/// bit 4; P/V signed overflow; N set; C a borrow into bit 8.
pub open spec fn sub_flags(a: u8, d: u8, carry: bool) -> Flags {
    let c = carry_in(carry);
    let signed_diff = signed(a) - signed(d) - c;
    with_szxy(
        Flags {
            s: false,
            z: false,
            b5: false,
            h: a % 16 - d % 16 - c < 0,
            b3: false,
            p: signed_diff > 127 || signed_diff < -128,
            n: true,
            c: a - d - c < 0,
        },
        sub_result(a, d, carry),
    )
}

/// The flags after comparing `a` with `d`: those of `a - d`, but Y and X copied
/// from the operand `d`.
pub open spec fn cp_flags(a: u8, d: u8) -> Flags {
    with_xy(sub_flags(a, d, false), d)
}

/// The flags after a logical operation with result `r`: S, Z, Y, X from `r`; P/V
/// its parity; N and C clear; H as given (set by AND, clear by OR and XOR).
pub open spec fn logic_flags(r: u8, half: bool) -> Flags {
    with_szxy(
        Flags {
            s: false,
            z: false,
            b5: false,
            h: half,
            b3: false,
            p: even_parity(r),
            n: false,
            c: false,
        },
        r,
    )
}

/// The flags after incrementing `d`: C keeps its value.
pub open spec fn inc_flags(f: Flags, d: u8) -> Flags {
    with_szxy(Flags { h: d % 16 == 15, p: d == 0x7F, n: false, ..f }, wrap_byte(d + 1))
}

/// The flags after decrementing `d`: C keeps its value.
pub open spec fn dec_flags(f: Flags, d: u8) -> Flags {
    with_szxy(Flags { h: d % 16 == 0, p: d == 0x80, n: true, ..f }, wrap_byte(d - 1))
}

/// The flags after moving `d` one up or one down.
pub open spec fn step_flags(f: Flags, d: u8, up: bool) -> Flags {
    if up {
        inc_flags(f, d)
    } else {
        dec_flags(f, d)
    }
}

/// The flags after negating `a`.
pub open spec fn neg_flags(a: u8) -> Flags {
    with_szxy(
        Flags {
            s: false,
            z: false,
            b5: false,
            h: a % 16 != 0,
            b3: false,
            p: a == 0x80,
            n: true,
            c: a != 0,
        },
        wrap_byte(0 - a),
    )
}

/// The amount that decimal adjustment adds to or takes from `a`: 6 for a low digit
/// above 9 or a half carry `h`, 0x60 for a value above 0x99 or a carry `c`.
pub open spec fn daa_correction(a: u8, h: bool, c: bool) -> u8 {
    let low: int = if h || a % 16 > 9 {
        0x06
    } else {
        0x00
    };
    let high: int = if c || a > 0x99 {
        0x60
    } else {
        0x00
    };
    (low + high) as u8
}

/// The accumulator after decimal adjustment: the correction is added after an
/// addition (`n` clear) and subtracted after a subtraction (`n` set).
pub open spec fn daa_result(a: u8, h: bool, n: bool, c: bool) -> u8 {
    if n {
        wrap_byte(a - daa_correction(a, h, c))
    } else {
        wrap_byte(a + daa_correction(a, h, c))
    }
}

/// The half carry after decimal adjustment.
pub open spec fn daa_half(a: u8, h: bool, n: bool) -> bool {
    if n {
        h && a % 16 < 6
    } else {
        a % 16 > 9
    }
}

/// The flags after decimal adjustment: S, Z, Y, X and parity from the result; N
/// unchanged; C set when the high digit was corrected.
pub open spec fn daa_flags(a: u8, f: Flags) -> Flags {
    let r = daa_result(a, f.h, f.n, f.c);
    with_szxy(
        Flags { h: daa_half(a, f.h, f.n), p: even_parity(r), c: f.c || a > 0x99, ..f },
        r,
    )
}

/// The flags after the 16-bit `hl + rr`: H a carry out of bit 11, C a carry out of
/// bit 15, N clear, Y and X from the high byte of the sum; S, Z, P/V unchanged.
pub open spec fn add16_flags(f: Flags, hl: u16, rr: u16) -> Flags {
    with_xy(
        Flags { h: hl % 0x1000 + rr % 0x1000 > 0x0FFF, n: false, c: hl + rr > 0xFFFF, ..f },
        high(wrap_word(hl + rr)),
    )
}

/// The sum `hl + rr + carry`, modulo 2^16.
pub open spec fn adc16_result(hl: u16, rr: u16, carry: bool) -> u16 {
    wrap_word(hl + rr + carry_in(carry))
}

/// The flags after the 16-bit `hl + rr + carry`.
pub open spec fn adc16_flags(hl: u16, rr: u16, carry: bool) -> Flags {
    let c = carry_in(carry);
    let r = adc16_result(hl, rr, carry);
    let signed_sum = signed_word(hl) + signed_word(rr) + c;
    with_xy(
        Flags {
            s: r >= 0x8000,
            z: r == 0,
            b5: false,
            h: hl % 0x1000 + rr % 0x1000 + c > 0x0FFF,
            b3: false,
            p: signed_sum > 32767 || signed_sum < -32768,
            n: false,
            c: hl + rr + c > 0xFFFF,
        },
        high(r),
    )
}

/// The difference `hl - rr - carry`, modulo 2^16.
pub open spec fn sbc16_result(hl: u16, rr: u16, carry: bool) -> u16 {
    wrap_word(hl - rr - carry_in(carry))
}

/// The flags after the 16-bit `hl - rr - carry`.
pub open spec fn sbc16_flags(hl: u16, rr: u16, carry: bool) -> Flags {
    let c = carry_in(carry);
    let r = sbc16_result(hl, rr, carry);
    let signed_diff = signed_word(hl) - signed_word(rr) - c;
    with_xy(
        Flags {
            s: r >= 0x8000,
            z: r == 0,
            b5: false,
            h: hl % 0x1000 - rr % 0x1000 - c < 0,
            b3: false,
            p: signed_diff > 32767 || signed_diff < -32768,
            n: true,
            c: hl - rr - c < 0,
        },
        high(r),
    )
}

/// One of the eight rotate and shift operations, by its number in the opcode.
pub open spec fn shift_result(kind: u8, v: u8, carry: bool) -> u8 {
    if kind == 0 {
        (v << 1) | (v >> 7)
    } else if kind == 1 {
        (v >> 1) | (v << 7)
    } else if kind == 2 {
        (v << 1) | (if carry {
            0x01u8
        } else {
            0x00u8
        })
    } else if kind == 3 {
        (v >> 1) | (if carry {
            0x80u8
        } else {
            0x00u8
        })
    } else if kind == 4 {
        v << 1
    } else if kind == 5 {
        (v >> 1) | (v & 0x80)
    } else if kind == 6 {
        (v << 1) | 0x01
    } else {
        v >> 1
    }
}

/// The bit that a rotate or shift moves out: bit 7 when it moves left (kinds 0, 2,
/// 4, 6), bit 0 when it moves right.
pub open spec fn shift_carry(kind: u8, v: u8) -> bool {
    if kind % 2 == 0 {
        v >= 0x80
    } else {
        v % 2 == 1
    }
}

/// The flags after a rotate or shift of a register or memory byte.
pub open spec fn shift_flags(kind: u8, v: u8, carry: bool) -> Flags {
    let r = shift_result(kind, v, carry);
    with_szxy(
        Flags {
            s: false,
            z: false,
            b5: false,
            h: false,
            b3: false,
            p: even_parity(r),
            n: false,
            c: shift_carry(kind, v),
        },
        r,
    )
}

/// The flags after one of the four accumulator rotates with result `r`: H and N
/// clear, C the bit moved out, Y and X from `r`; S, Z and P/V unchanged.
pub open spec fn rotate_a_flags(f: Flags, kind: u8, a: u8) -> Flags {
    with_xy(
        Flags { h: false, n: false, c: shift_carry(kind, a), ..f },
        shift_result(kind, a, f.c),
    )
}

/// The mask with only bit `bit` set.
pub open spec fn bit_mask(bit: u8) -> u8 {
    1u8 << bit
}

/// The flags after testing bit `bit` of `v`: Z and P/V set when the bit is clear,
/// S set when bit 7 is tested and set, H set, N clear, C unchanged. Y and X are
/// copied from `xy`.
pub open spec fn bit_flags(f: Flags, bit: u8, v: u8, xy: u8) -> Flags {
    let clear = v & bit_mask(bit) == 0;
    with_xy(Flags { s: bit == 7 && !clear, z: clear, h: true, p: clear, n: false, ..f }, xy)
}

/// The flags after loading A from I or R, or from an input port with `p` the parity:
/// S, Z, Y, X from the value, H and N clear, P/V as given, C unchanged.
pub open spec fn load_flags(f: Flags, v: u8, p: bool) -> Flags {
    with_szxy(Flags { h: false, p, n: false, ..f }, v)
}

impl Flags {
    /// Copies Y and X from bits 5 and 3 of `r`.
    pub fn set_xy(&mut self, r: u8)
        ensures
            *final(self) == with_xy(*old(self), r),
    {
        self.b5 = (r & 0x20) != 0;
        self.b3 = (r & 0x08) != 0;
    }

    /// Takes S, Z, Y and X from the result byte `r`.
    pub fn set_szxy(&mut self, r: u8)
        ensures
            *final(self) == with_szxy(*old(self), r),
    {
        self.s = r >= 0x80;
        self.z = r == 0;
        self.b5 = (r & 0x20) != 0;
        self.b3 = (r & 0x08) != 0;
    }
}

/// The two's complement value of `v`.
pub fn to_signed(v: u8) -> (r: i16)
    ensures
        r == signed(v),
{
    if v >= 0x80 {
        (v as i16) - 0x100
    } else {
        v as i16
    }
}

/// The two's complement value of `v`.
pub fn to_signed_word(v: u16) -> (r: i32)
    ensures
        r == signed_word(v),
{
    if v >= 0x8000 {
        (v as i32) - 0x10000
    } else {
        v as i32
    }
}

/// The 8-bit `a + d + carry` with its flags.
pub fn add8(a: u8, d: u8, carry: bool) -> (out: (u8, Flags))
    ensures
        out.0 == add_result(a, d, carry),
        out.1 == add_flags(a, d, carry),
{
    let c: u8 = if carry { 1 } else { 0 };
    let r = a.wrapping_add(d).wrapping_add(c);
    let signed_sum: i16 = to_signed(a) + to_signed(d) + (c as i16);
    let mut flags = Flags {
        s: false,
        z: false,
        b5: false,
        h: (a % 16) + (d % 16) + c > 0x0F,
        b3: false,
        p: signed_sum > 127 || signed_sum < -128,
        n: false,
        c: (a as u16) + (d as u16) + (c as u16) > 0x00FF,
    };
    flags.set_szxy(r);
    (r, flags)
}

/// The 8-bit `a - d - carry` with its flags.
pub fn sub8(a: u8, d: u8, carry: bool) -> (out: (u8, Flags))
    ensures
        out.0 == sub_result(a, d, carry),
        out.1 == sub_flags(a, d, carry),
{
    let c: u8 = if carry { 1 } else { 0 };
    let r = a.wrapping_sub(d).wrapping_sub(c);
    let signed_diff: i16 = to_signed(a) - to_signed(d) - (c as i16);
    let mut flags = Flags {
        s: false,
        z: false,
        b5: false,
        h: (a % 16) < (d % 16) + c,
        b3: false,
        p: signed_diff > 127 || signed_diff < -128,
        n: true,
        c: (a as u16) < (d as u16) + (c as u16),
    };
    flags.set_szxy(r);
    (r, flags)
}

/// The 16-bit `hl + rr + carry` with its flags.
pub fn adc16(hl: u16, rr: u16, carry: bool) -> (out: (u16, Flags))
    ensures
        out.0 == adc16_result(hl, rr, carry),
        out.1 == adc16_flags(hl, rr, carry),
{
    let c: u16 = if carry { 1 } else { 0 };
    let r = hl.wrapping_add(rr).wrapping_add(c);
    let signed_sum: i32 = to_signed_word(hl) + to_signed_word(rr) + (c as i32);
    let mut flags = Flags {
        s: r >= 0x8000,
        z: r == 0,
        b5: false,
        h: (hl % 0x1000) + (rr % 0x1000) + c > 0x0FFF,
        b3: false,
        p: signed_sum > 32767 || signed_sum < -32768,
        n: false,
        c: (hl as u32) + (rr as u32) + (c as u32) > 0xFFFF,
    };
    flags.set_xy((r / 256) as u8);
    (r, flags)
}

/// The 16-bit `hl - rr - carry` with its flags.
pub fn sbc16(hl: u16, rr: u16, carry: bool) -> (out: (u16, Flags))
    ensures
        out.0 == sbc16_result(hl, rr, carry),
        out.1 == sbc16_flags(hl, rr, carry),
{
    let c: u16 = if carry { 1 } else { 0 };
    let r = hl.wrapping_sub(rr).wrapping_sub(c);
    let signed_diff: i32 = to_signed_word(hl) - to_signed_word(rr) - (c as i32);
    let mut flags = Flags {
        s: r >= 0x8000,
        z: r == 0,
        b5: false,
        h: (hl % 0x1000) < (rr % 0x1000) + c,
        b3: false,
        p: signed_diff > 32767 || signed_diff < -32768,
        n: true,
        c: (hl as u32) < (rr as u32) + (c as u32),
    };
    flags.set_xy((r / 256) as u8);
    (r, flags)
}

/// Decimal adjustment of `a` after an addition (`n` clear) or a subtraction (`n`
/// set), with `h` and `c` the half carry and carry that the operation left. Returns
/// the adjusted byte and the new half carry.
pub fn decimal_adjust(a: u8, h: bool, n: bool, c: bool) -> (out: (u8, bool))
    ensures
        out.0 == daa_result(a, h, n, c),
        out.1 == daa_half(a, h, n),
{
    let rl: u8 = if a % 16 > 0x09 || h {
        0x06
    } else {
        0x00
    };
    let rh: u8 = if a > 0x99 || c {
        0x60
    } else {
        0x00
    };
    let correction: u8 = rh + rl;
    assert(correction == daa_correction(a, h, c));
    if n {
        let r = a.wrapping_sub(correction);
        assert(r == wrap_byte(a - correction));
        (r, h && a % 16 < 0x06)
    } else {
        let r = a.wrapping_add(correction);
        assert(r == wrap_byte(a + correction));
        (r, a % 16 > 0x09)
    }
}

/// Rotates or shifts `v` by one bit; `kind` is the operation's number in the
/// opcode (RLC, RRC, RL, RR, SLA, SRA, SLL, SRL) and `carry` the carry flag.
pub fn shift(kind: u8, v: u8, carry: bool) -> (r: u8)
    ensures
        r == shift_result(kind, v, carry),
{
    if kind == 0 {
        (v << 1) | (v >> 7)
    } else if kind == 1 {
        (v >> 1) | (v << 7)
    } else if kind == 2 {
        (v << 1) | (if carry {
            0x01u8
        } else {
            0x00u8
        })
    } else if kind == 3 {
        (v >> 1) | (if carry {
            0x80u8
        } else {
            0x00u8
        })
    } else if kind == 4 {
        v << 1
    } else if kind == 5 {
        (v >> 1) | (v & 0x80)
    } else if kind == 6 {
        (v << 1) | 0x01
    } else {
        v >> 1
    }
}

/// The mask with only bit `bit` set.
pub fn mask_of(bit: u8) -> (m: u8)
    requires
        bit < 8,
    ensures
        m == bit_mask(bit),
{
    1u8 << bit
}

} // verus!
