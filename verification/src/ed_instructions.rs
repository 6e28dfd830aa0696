use crate::alu::{
    adc16, adc16_flags, adc16_result, load_flags, neg_flags, sbc16, sbc16_flags,
    sbc16_result, with_szxy,
};
use crate::arith::{even_parity, hi, high, lo, low, make_word, parity, wrap_byte, wrap_word};
use crate::bus::{io_input, read_io, write_io};
use crate::cycles::{ed_cycles, ed_entry};
use crate::flags::Flags;
use crate::registers::Registers;
use crate::z80::{InterruptMode, Machine, Step, Z80};
use vstd::prelude::*;

verus! {

/// `v` moved one up or one down, modulo 2^16.
pub open spec fn stepped(v: u16, up: bool) -> u16 {
    if up {
        wrap_word(v + 1)
    } else {
        wrap_word(v - 1)
    }
}

/// `v` moved one up or one down, modulo 2^8.
pub open spec fn stepped_byte(v: u8, up: bool) -> u8 {
    if up {
        wrap_byte(v + 1)
    } else {
        wrap_byte(v - 1)
    }
}

/// The interrupt mode that the IM opcode with bits 5..3 equal to `y` selects.
pub open spec fn mode_of(y: u8) -> InterruptMode {
    if y % 4 == 2 {
        InterruptMode::IM_1
    } else if y % 4 == 3 {
        InterruptMode::IM_2
    } else {
        InterruptMode::IM_0
    }
}

/// The flags after a block load moved `data`: H and N clear, P/V set while BC is
/// not yet zero, X and Y from bits 3 and 1 of `data + a`; S, Z and C unchanged.
pub open spec fn block_load_flags(f: Flags, data: u8, a: u8, bc_after: u16) -> Flags {
    let n = wrap_byte(data + a);
    Flags { b5: n & 0x02 != 0, h: false, b3: n & 0x08 != 0, p: bc_after != 0, n: false, ..f }
}

/// The flags after a block compare of `a` with `data`: S, Z and H as for `a - data`,
/// N set, P/V set while BC is not yet zero, X and Y from bits 3 and 1 of the
/// difference less the half borrow; C unchanged.
pub open spec fn block_compare_flags(f: Flags, data: u8, a: u8, bc_after: u16) -> Flags {
    let r = wrap_byte(a - data);
    let half = a % 16 < data % 16;
    let n = wrap_byte(
        r - (if half {
            1int
        } else {
            0int
        }),
    );
    Flags {
        s: r >= 0x80,
        z: r == 0,
        b5: n & 0x02 != 0,
        h: half,
        b3: n & 0x08 != 0,
        p: bc_after != 0,
        n: true,
        c: f.c,
    }
}

/// The flags after a block input or output moved `data` with B counting down from
/// `b`: S, Z, Y, X from the new B; N bit 7 of `data`; C and H a carry out of
/// `data + other`; P/V the parity of the low three bits of that sum xor the new B.
pub open spec fn block_io_flags(f: Flags, data: u8, b: u8, other: u8) -> Flags {
    let k = data + other;
    let b_after = wrap_byte(b - 1);
    Flags {
        h: k > 0xFF,
        p: even_parity(((k % 8) as u8) ^ b_after),
        n: data >= 0x80,
        c: k > 0xFF,
        ..with_szxy(f, b_after)
    }
}

impl Machine {
    /// The register pair that the field `p` names in the ED page: BC, DE, HL, SP.
    #[verifier::opaque]
    pub open spec fn pair(self, p: u8) -> u16 {
        if p == 0 {
            self.reg.bc()
        } else if p == 1 {
            self.reg.de()
        } else if p == 2 {
            self.reg.hl()
        } else {
            self.reg.sp
        }
    }

    /// The state with `v` stored in the pair that the field `p` names.
    #[verifier::opaque]
    pub open spec fn with_pair(self, p: u8, v: u16) -> Machine {
        if p == 0 {
            self.with_reg(self.reg.with_bc(v))
        } else if p == 1 {
            self.with_reg(self.reg.with_de(v))
        } else if p == 2 {
            self.with_reg(self.reg.with_hl(v))
        } else {
            self.with_reg(self.reg.with_sp(v))
        }
    }

    /// The state with the flags replaced.
    #[verifier::opaque]
    pub open spec fn with_flags(self, flags: Flags) -> Machine {
        self.with_reg(self.reg.with_flags(flags))
    }

    /// The state with the word `v` stored at `addr`, low byte first.
    #[verifier::opaque]
    pub open spec fn write_word(self, addr: u16, v: u16) -> Machine {
        self.write(addr, low(v)).write(wrap_word(addr + 1), high(v))
    }

    /// The state after IN r,(C) read `data`: only the flags change.
    #[verifier::opaque]
    pub open spec fn input_flags(self) -> Machine {
        let data = io_input(self.reg.bc());
        self.with_flags(load_flags(self.reg.flags, data, even_parity(data)))
    }

    /// The state after the flags of `HL - rr - carry` are set.
    #[verifier::opaque]
    pub open spec fn sbc_hl_flags(self, rr: u16) -> Machine {
        self.with_flags(sbc16_flags(self.reg.hl(), rr, self.reg.flags.c))
    }

    /// The state after the flags of `HL + rr + carry` are set.
    #[verifier::opaque]
    pub open spec fn adc_hl_flags(self, rr: u16) -> Machine {
        self.with_flags(adc16_flags(self.reg.hl(), rr, self.reg.flags.c))
    }

    /// The state after `A := 0 - A`.
    #[verifier::opaque]
    pub open spec fn negated(self) -> Machine {
        self.with_reg(
            Registers { a: wrap_byte(0 - self.reg.a), flags: neg_flags(self.reg.a), ..self.reg },
        )
    }

    /// The state after one block load: the byte at HL is copied to DE, HL and DE
    /// move one up or down, BC counts down.
    #[verifier::opaque]
    pub open spec fn block_loaded(self, up: bool) -> Machine {
        let hl = self.reg.hl();
        let de = self.reg.de();
        let bc = wrap_word(self.reg.bc() - 1);
        let data = self.read(hl);
        self.write(de, data).with_reg(
            self.reg.with_hl(stepped(hl, up)).with_de(stepped(de, up)).with_bc(bc).with_flags(
                block_load_flags(self.reg.flags, data, self.reg.a, bc),
            ),
        )
    }

    /// The state after one block compare: A is compared with the byte at HL, HL moves
    /// one up or down, BC counts down.
    #[verifier::opaque]
    pub open spec fn block_compared(self, up: bool) -> Machine {
        let hl = self.reg.hl();
        let bc = wrap_word(self.reg.bc() - 1);
        let data = self.read(hl);
        self.with_reg(
            self.reg.with_hl(stepped(hl, up)).with_bc(bc).with_flags(
                block_compare_flags(self.reg.flags, data, self.reg.a, bc),
            ),
        )
    }

    /// The state after a block input or output counted B down from `b` and set its
    /// flags.
    #[verifier::opaque]
    pub open spec fn block_counted(self, data: u8, b: u8, other: u8) -> Machine {
        self.with_reg(
            Registers {
                b: wrap_byte(b - 1),
                flags: block_io_flags(self.reg.flags, data, b, other),
                ..self.reg
            },
        )
    }

    /// The state after one block input: the byte from port BC is stored at HL, HL
    /// moves one up or down, B counts down.
    #[verifier::opaque]
    pub open spec fn block_input(self, up: bool) -> Machine {
        let hl = self.reg.hl();
        let data = io_input(self.reg.bc());
        self.write(hl, data).with_reg(self.reg.with_hl(stepped(hl, up))).block_counted(
            data,
            self.reg.b,
            stepped_byte(self.reg.c, up),
        )
    }

    /// The state after one block output: the byte at HL goes to port BC, HL moves one
    /// up or down, B counts down. The default device ignores the byte.
    #[verifier::opaque]
    pub open spec fn block_output(self, up: bool) -> Machine {
        let hl = self.reg.hl();
        let data = self.read(hl);
        let l = low(stepped(hl, up));
        self.with_reg(self.reg.with_hl(stepped(hl, up))).block_counted(data, self.reg.b, l)
    }

    /// The state after A is loaded from I or R with value `v`: P/V shows IFF2.
    #[verifier::opaque]
    pub open spec fn loaded_a(self, v: u8) -> Machine {
        self.with_reg(
            Registers { a: v, flags: load_flags(self.reg.flags, v, self.iff2), ..self.reg },
        )
    }

    /// The state after RLD: the high nibble of the byte at HL moves to the low
    /// nibble of A, its low nibble to its high nibble, and the low nibble of A to its
    /// low nibble.
    #[verifier::opaque]
    pub open spec fn rotated_left_digit(self) -> Machine {
        let hl = self.reg.hl();
        let n = self.read(hl);
        let a = (self.reg.a & 0xF0) | (n >> 4);
        let m = (n << 4) | (self.reg.a & 0x0F);
        self.with_reg(
            Registers {
                a,
                flags: load_flags(self.reg.flags, a, even_parity(a)),
                ..self.reg
            },
        ).write(hl, m)
    }

    /// The state after RRD: the low nibble of the byte at HL moves to the low nibble
    /// of A, its high nibble to its low nibble, and the low nibble of A to its high
    /// nibble.
    #[verifier::opaque]
    pub open spec fn rotated_right_digit(self) -> Machine {
        let hl = self.reg.hl();
        let n = self.read(hl);
        let a = (self.reg.a & 0xF0) | (n & 0x0F);
        let m = (n >> 4) | (self.reg.a << 4);
        self.with_reg(
            Registers {
                a,
                flags: load_flags(self.reg.flags, a, even_parity(a)),
                ..self.reg
            },
        ).write(hl, m)
    }

    /// The state after RETN or RETI: IFF1 takes the value of IFF2, then a return.
    #[verifier::opaque]
    pub open spec fn returned_from_interrupt(self) -> Machine {
        Machine { iff1: self.iff2, ..self }.returned()
    }

    /// The state after one step of a block instruction: bits 1..0 of the opcode
    /// (`z`) pick load, compare, input or output; `up` the direction.
    #[verifier::opaque]
    pub open spec fn block_stepped(self, z: u8, up: bool) -> Machine {
        if z == 0 {
            self.block_loaded(up)
        } else if z == 1 {
            self.block_compared(up)
        } else if z == 2 {
            self.block_input(up)
        } else {
            self.block_output(up)
        }
    }

    /// Whether a repeating block instruction runs again, judged in the state after
    /// its step: a load while BC is not zero, a compare while BC is not zero and no
    /// match was found, an input or output while B is not zero.
    pub open spec fn block_repeats(self, z: u8) -> bool {
        if z == 0 {
            self.reg.flags.p
        } else if z == 1 {
            self.reg.flags.p && !self.reg.flags.z
        } else {
            !self.reg.flags.z
        }
    }

    /// The block instruction with opcode bits 5..3 equal to `y` (4..7) and bits 2..0
    /// equal to `z` (0..3), with PC on its second byte. Odd `y` moves down, even up;
    /// `y` of 6 and 7 repeats: PC then moves two back, so that the step's final
    /// increment puts it on the instruction again, at 5 more T-states.
    #[verifier::opaque]
    pub open spec fn block_op(self, y: u8, z: u8) -> Step {
        let after = self.block_stepped(z, y % 2 == 0);
        if y >= 6 && after.block_repeats(z) {
            Step { state: after.skip(-2), cycles: 5 }
        } else {
            Step { state: after, cycles: 0 }
        }
    }

    /// The ED-page instructions with top bits 01, by the fields `y` and `z` of the
    /// opcode, with PC on the opcode.
    #[verifier::opaque]
    pub open spec fn ed_quarter(self, y: u8, z: u8) -> Machine {
        let p = y / 2;
        let q = y % 2;
        if z == 0 {
            self.input_flags().with_r8(y, io_input(self.reg.bc()))
        } else if z == 1 {
            self
        } else if z == 2 {
            if q == 0 {
                self.sbc_hl_flags(self.pair(p)).with_pair(
                    2,
                    sbc16_result(self.reg.hl(), self.pair(p), self.reg.flags.c),
                )
            } else {
                self.adc_hl_flags(self.pair(p)).with_pair(
                    2,
                    adc16_result(self.reg.hl(), self.pair(p), self.reg.flags.c),
                )
            }
        } else if z == 3 {
            if q == 0 {
                self.skip(2).write_word(self.immediate_word(), self.pair(p))
            } else {
                self.skip(2).with_pair(p, self.read_word(self.immediate_word()))
            }
        } else if z == 4 {
            self.negated()
        } else if z == 5 {
            self.returned_from_interrupt()
        } else if z == 6 {
            Machine { im: mode_of(y), ..self }
        } else if y == 0 {
            self.with_reg(Registers { i: self.reg.a, ..self.reg })
        } else if y == 1 {
            self.with_reg(Registers { r: self.reg.a, ..self.reg })
        } else if y == 2 {
            self.loaded_a(self.reg.i)
        } else if y == 3 {
            self.loaded_a(self.reg.r)
        } else if y == 4 {
            self.rotated_right_digit()
        } else if y == 5 {
            self.rotated_left_digit()
        } else {
            self
        }
    }

    /// The ED-page instruction whose ED byte PC is on: the state after it, with PC on
    /// its last byte, and the T-states of its table entry, plus 5 when a block
    /// instruction repeats. Opcodes outside the two populated quarters do nothing.
    #[verifier::opaque]
    pub open spec fn ed_step(self) -> Step {
        let opcode = self.at_pc(1);
        let m = self.skip(1);
        let x = opcode / 64;
        let y = (opcode / 8) % 8;
        let z = opcode % 8;
        let base = ed_entry(opcode);
        if x == 1 {
            Step { state: m.ed_quarter(y, z), cycles: base }
        } else if x == 2 && y >= 4 && z <= 3 {
            Step { state: m.block_op(y, z).state, cycles: base + m.block_op(y, z).cycles }
        } else {
            Step { state: m, cycles: base }
        }
    }
}

/// `v` moved one up or one down, wrapping at 16 bits.
pub(crate) fn step_word(v: u16, up: bool) -> (r: u16)
    ensures
        r == stepped(v, up),
{
    if up {
        v.wrapping_add(1)
    } else {
        v.wrapping_sub(1)
    }
}

/// `v` moved one up or one down, wrapping at 8 bits.
fn step_byte(v: u8, up: bool) -> (r: u8)
    ensures
        r == stepped_byte(v, up),
{
    if up {
        v.wrapping_add(1)
    } else {
        v.wrapping_sub(1)
    }
}

/// The flags of a block load that moved `data`, with `bc_after` the counter after
/// the count.
fn load_in_block(f: Flags, data: u8, a: u8, bc_after: u16) -> (flags: Flags)
    ensures
        flags == block_load_flags(f, data, a, bc_after),
{
    let n = data.wrapping_add(a);
    Flags {
        s: f.s,
        z: f.z,
        b5: n & 0x02 != 0,
        h: false,
        b3: n & 0x08 != 0,
        p: bc_after != 0,
        n: false,
        c: f.c,
    }
}

/// The flags of a block compare of `a` with `data`, with `bc_after` the counter
/// after the count.
fn compare_in_block(f: Flags, data: u8, a: u8, bc_after: u16) -> (flags: Flags)
    ensures
        flags == block_compare_flags(f, data, a, bc_after),
{
    let r = a.wrapping_sub(data);
    let half = (a % 16) < (data % 16);
    let n = if half {
        r.wrapping_sub(1)
    } else {
        r
    };
    Flags {
        s: r >= 0x80,
        z: r == 0,
        b5: n & 0x02 != 0,
        h: half,
        b3: n & 0x08 != 0,
        p: bc_after != 0,
        n: true,
        c: f.c,
    }
}

impl Z80 {
    /// The register pair that the field `p` names: BC, DE, HL, SP.
    fn get_pair(&self, p: u8) -> (v: u16)
        ensures
            v == self@.pair(p),
    {
        reveal(Machine::pair);
        match p {
            0 => self.reg.get_bc(),
            1 => self.reg.get_de(),
            2 => self.reg.get_hl(),
            _ => self.reg.sp,
        }
    }

    /// Stores `v` in the register pair that the field `p` names.
    fn set_pair(&mut self, p: u8, v: u16)
        ensures
            final(self)@ == old(self)@.with_pair(p, v),
    {
        reveal(Machine::with_pair);
        match p {
            0 => self.reg.set_bc(v),
            1 => self.reg.set_de(v),
            2 => self.reg.set_hl(v),
            _ => self.reg.sp = v,
        };
    }

    /// IN r,(C): reads port BC and sets the flags from the byte.
    pub(crate) fn in_r_c(&mut self) -> (data: u8)
        ensures
            data == io_input(old(self).reg.bc()),
            final(self)@ == old(self)@.input_flags(),
    {
        reveal(Machine::with_flags);
        reveal(Machine::input_flags);
        let addr = self.reg.get_bc();
        let data = read_io(addr);
        self.reg.flags.h = false;
        self.reg.flags.p = parity(data);
        self.reg.flags.n = false;
        self.reg.flags.set_szxy(data);
        data
    }

    /// OUT (C),r: writes `reg` to port BC.
    pub(crate) fn out_c_r(&mut self, reg: u8)
        ensures
            final(self)@ == old(self)@,
    {
        let addr = self.reg.get_bc();
        write_io(addr, reg);
    }

    /// SBC HL,rr: returns `HL - reg - carry` and sets the flags; the caller stores
    /// the result.
    pub(crate) fn sbc_hl_rr(&mut self, reg: u16) -> (r: u16)
        ensures
            r == sbc16_result(old(self).reg.hl(), reg, old(self).reg.flags.c),
            final(self)@ == old(self)@.sbc_hl_flags(reg),
    {
        reveal(Machine::with_flags);
        reveal(Machine::sbc_hl_flags);
        let (r, flags) = sbc16(self.reg.get_hl(), reg, self.reg.flags.c);
        self.reg.flags = flags;
        r
    }

    /// ADC HL,rr: returns `HL + reg + carry` and sets the flags; the caller stores
    /// the result.
    pub(crate) fn adc_hl_rr(&mut self, reg: u16) -> (r: u16)
        ensures
            r == adc16_result(old(self).reg.hl(), reg, old(self).reg.flags.c),
            final(self)@ == old(self)@.adc_hl_flags(reg),
    {
        reveal(Machine::with_flags);
        reveal(Machine::adc_hl_flags);
        let (r, flags) = adc16(self.reg.get_hl(), reg, self.reg.flags.c);
        self.reg.flags = flags;
        r
    }

    /// NEG: `A := 0 - A`.
    pub(crate) fn neg(&mut self)
        ensures
            final(self)@ == old(self)@.negated(),
    {
        reveal(Machine::negated);
        let a = self.reg.a;
        let r = 0_u8.wrapping_sub(a);
        self.reg.flags.h = a % 16 != 0;
        self.reg.flags.p = a == 0x80;
        self.reg.flags.n = true;
        self.reg.flags.c = a != 0;
        self.reg.flags.set_szxy(r);
        self.reg.a = r;
    }

    /// One block load, up or down.
    fn block_load(&mut self, up: bool)
        ensures
            final(self)@ == old(self)@.block_loaded(up),
    {
        reveal(Machine::block_loaded);
        let s = self.reg.get_hl();
        let d = self.reg.get_de();
        let data = self.bus.read(s);
        self.bus.write(d, data);
        let bc = self.reg.get_bc().wrapping_sub(1);
        let flags = load_in_block(self.reg.flags, data, self.reg.a, bc);
        self.reg.set_hl(step_word(s, up));
        self.reg.set_de(step_word(d, up));
        self.reg.set_bc(bc);
        self.reg.flags = flags;
    }

    /// LDI: block load, moving up.
    pub(crate) fn ldi(&mut self)
        ensures
            final(self)@ == old(self)@.block_loaded(true),
    {
        reveal(Machine::block_loaded);
        self.block_load(true);
    }

    /// LDD: block load, moving down.
    pub(crate) fn ldd(&mut self)
        ensures
            final(self)@ == old(self)@.block_loaded(false),
    {
        reveal(Machine::block_loaded);
        self.block_load(false);
    }

    /// One block compare, up or down.
    fn block_compare(&mut self, up: bool)
        ensures
            final(self)@ == old(self)@.block_compared(up),
    {
        reveal(Machine::block_compared);
        let s = self.reg.get_hl();
        let data = self.bus.read(s);
        self.reg.set_hl(step_word(s, up));
        let bc = self.reg.get_bc().wrapping_sub(1);
        self.reg.set_bc(bc);
        self.reg.flags = compare_in_block(self.reg.flags, data, self.reg.a, bc);
    }

    /// CPI: block compare, moving up.
    pub(crate) fn cpi(&mut self)
        ensures
            final(self)@ == old(self)@.block_compared(true),
    {
        reveal(Machine::block_compared);
        self.block_compare(true);
    }

    /// CPD: block compare, moving down.
    pub(crate) fn cpd(&mut self)
        ensures
            final(self)@ == old(self)@.block_compared(false),
    {
        reveal(Machine::block_compared);
        self.block_compare(false);
    }

    /// Sets the flags of a block input or output that moved `data`, with `b` the
    /// counter before the count and `other` the second term of the carry sum.
    fn set_block_io_flags(&mut self, data: u8, b: u8, other: u8)
        ensures
            final(self)@ == old(self)@.block_counted(data, b, other),
    {
        reveal(Machine::block_counted);
        let b_after = b.wrapping_sub(1);
        let k: u16 = (data as u16) + (other as u16);
        self.reg.b = b_after;
        self.reg.flags.set_szxy(b_after);
        self.reg.flags.n = data >= 0x80;
        self.reg.flags.c = k > 0x00FF;
        self.reg.flags.h = k > 0x00FF;
        self.reg.flags.p = parity(((k % 8) as u8) ^ b_after);
    }

    /// One block input, up or down.
    fn block_in(&mut self, up: bool)
        ensures
            final(self)@ == old(self)@.block_input(up),
    {
        reveal(Machine::block_input);
        let s = self.reg.get_bc();
        let data = read_io(s);
        let d = self.reg.get_hl();
        let other = step_byte(self.reg.c, up);
        let b = self.reg.b;
        self.bus.write(d, data);
        self.reg.set_hl(step_word(d, up));
        self.set_block_io_flags(data, b, other);
    }

    /// INI: block input, moving up.
    pub(crate) fn ini(&mut self)
        ensures
            final(self)@ == old(self)@.block_input(true),
    {
        reveal(Machine::block_input);
        self.block_in(true);
    }

    /// IND: block input, moving down.
    pub(crate) fn ind(&mut self)
        ensures
            final(self)@ == old(self)@.block_input(false),
    {
        reveal(Machine::block_input);
        self.block_in(false);
    }

    /// One block output, up or down.
    fn block_out(&mut self, up: bool)
        ensures
            final(self)@ == old(self)@.block_output(up),
    {
        reveal(Machine::block_output);
        let s = self.reg.get_hl();
        let data = self.bus.read(s);
        self.reg.set_hl(step_word(s, up));
        let b = self.reg.b;
        let l = self.reg.l;
        self.set_block_io_flags(data, b, l);
        let d = self.reg.get_bc();
        write_io(d, data);
    }

    /// OUTI: block output, moving up.
    pub(crate) fn outi(&mut self)
        ensures
            final(self)@ == old(self)@.block_output(true),
    {
        reveal(Machine::block_output);
        self.block_out(true);
    }

    /// OUTD: block output, moving down.
    pub(crate) fn outd(&mut self)
        ensures
            final(self)@ == old(self)@.block_output(false),
    {
        reveal(Machine::block_output);
        self.block_out(false);
    }

    /// LD A,I and LD A,R: loads `reg` into A and shows IFF2 in P/V.
    pub(crate) fn ld_a_ri(&mut self, reg: u8)
        ensures
            final(self)@ == old(self)@.loaded_a(reg),
    {
        reveal(Machine::loaded_a);
        self.reg.a = reg;
        self.reg.flags.h = false;
        self.reg.flags.p = self.iff2;
        self.reg.flags.n = false;
        self.reg.flags.set_szxy(reg);
    }

    /// RLD: rotates the three nibbles in A's low half and the byte at HL to the left.
    pub(crate) fn rld(&mut self)
        ensures
            final(self)@ == old(self)@.rotated_left_digit(),
    {
        reveal(Machine::rotated_left_digit);
        let hl = self.reg.get_hl();
        let n = self.bus.read(hl);
        let a = self.reg.a;
        let tmp = a & 0x0F;
        let a = (a & 0xF0) | (n >> 4);
        let n = (n << 4) | tmp;
        self.reg.flags.h = false;
        self.reg.flags.p = parity(a);
        self.reg.flags.n = false;
        self.reg.flags.set_szxy(a);
        self.reg.a = a;
        self.bus.write(hl, n);
    }

    /// RRD: rotates the three nibbles in A's low half and the byte at HL to the right.
    pub(crate) fn rrd(&mut self)
        ensures
            final(self)@ == old(self)@.rotated_right_digit(),
    {
        reveal(Machine::rotated_right_digit);
        let hl = self.reg.get_hl();
        let n = self.bus.read(hl);
        let a = self.reg.a;
        let tmp = a << 4;
        let a = (a & 0xF0) | (n & 0x0F);
        let n = (n >> 4) | tmp;
        self.reg.flags.h = false;
        self.reg.flags.p = parity(a);
        self.reg.flags.n = false;
        self.reg.flags.set_szxy(a);
        self.reg.a = a;
        self.bus.write(hl, n);
    }

    /// RETN and RETI: restores IFF1 from IFF2 and returns.
    fn ret_from_interrupt(&mut self)
        ensures
            final(self)@ == old(self)@.returned_from_interrupt(),
    {
        reveal(Machine::returned_from_interrupt);
        self.iff1 = self.iff2;
        self.ret();
    }

    /// IM 0, IM 1, IM 2 and their aliases.
    fn set_interrupt_mode(&mut self, y: u8)
        ensures
            final(self)@ == (Machine { im: mode_of(y), ..old(self)@ }),
    {
        self.im = if y % 4 == 2 {
            InterruptMode::IM_1
        } else if y % 4 == 3 {
            InterruptMode::IM_2
        } else {
            InterruptMode::IM_0
        };
    }

    /// Stores the word `v` at `addr`, low byte first.
    pub(crate) fn store_word(&mut self, addr: u16, v: u16)
        ensures
            final(self)@ == old(self)@.write_word(addr, v),
    {
        reveal(Machine::write_word);
        self.bus.write(addr, lo(v));
        self.bus.write(addr.wrapping_add(1), hi(v));
    }

    /// The word stored at `addr`, low byte first.
    pub(crate) fn load_word(&self, addr: u16) -> (v: u16)
        ensures
            v == self@.read_word(addr),
    {
        let l = self.bus.read(addr);
        let h = self.bus.read(addr.wrapping_add(1));
        make_word(h, l)
    }

    /// One step of the block instruction that the field `z` picks.
    fn block_step(&mut self, z: u8, up: bool)
        ensures
            final(self)@ == old(self)@.block_stepped(z, up),
    {
        reveal(Machine::block_stepped);
        match z {
            0 => if up {
                self.ldi()
            } else {
                self.ldd()
            },
            1 => if up {
                self.cpi()
            } else {
                self.cpd()
            },
            2 => if up {
                self.ini()
            } else {
                self.ind()
            },
            _ => if up {
                self.outi()
            } else {
                self.outd()
            },
        };
    }

    /// Whether the repeating block instruction that the field `z` picks runs again.
    fn block_again(&self, z: u8) -> (again: bool)
        ensures
            again == self@.block_repeats(z),
    {
        match z {
            0 => self.reg.flags.p,
            1 => self.reg.flags.p && !self.reg.flags.z,
            _ => !self.reg.flags.z,
        }
    }

    /// A block instruction; returns the T-states that a repeat adds.
    fn block_instruction(&mut self, y: u8, z: u8) -> (extra: u8)
        ensures
            final(self)@ == old(self)@.block_op(y, z).state,
            extra == old(self)@.block_op(y, z).cycles,
            extra <= 5,
    {
        reveal(Machine::block_op);
        self.block_step(z, y % 2 == 0);
        if y >= 6 && self.block_again(z) {
            self.back_pc(2);
            5
        } else {
            0
        }
    }

    /// 16-bit arithmetic and loads of the ED page (fields `z` of 2 and 3).
    fn ed_word_group(&mut self, y: u8, z: u8)
        requires
            z == 2 || z == 3,
        ensures
            final(self)@ == old(self)@.ed_quarter(y, z),
    {
        reveal(Machine::ed_quarter);
        let p = y / 2;
        let q = y % 2;
        if z == 2 {
            let rr = self.get_pair(p);
            let hl = if q == 0 {
                self.sbc_hl_rr(rr)
            } else {
                self.adc_hl_rr(rr)
            };
            self.set_pair(2, hl);
        } else if q == 0 {
            let v = self.get_pair(p);
            let nn = self.get_nn();
            self.store_word(nn, v);
        } else {
            let nn = self.get_nn();
            let v = self.load_word(nn);
            self.set_pair(p, v);
        }
    }

    /// Loads between A and I or R, and the digit rotates (field `z` of 7).
    fn ed_misc_group(&mut self, y: u8)
        ensures
            final(self)@ == old(self)@.ed_quarter(y, 7),
    {
        reveal(Machine::ed_quarter);
        match y {
            0 => self.reg.i = self.reg.a,
            1 => self.reg.r = self.reg.a,
            2 => {
                let i = self.reg.i;
                self.ld_a_ri(i)
            },
            3 => {
                let r = self.reg.r;
                self.ld_a_ri(r)
            },
            4 => self.rrd(),
            5 => self.rld(),
            _ => {},
        };
    }

    /// Executes the ED-page instruction whose ED byte PC is on, and returns the
    /// T-states of its table entry, plus 5 when a block instruction repeats. PC is
    /// left on the instruction's last byte; a repeating block instruction leaves it
    /// two bytes before the ED byte's successor, so that the step ends on the
    /// instruction again.
    ///
    /// A DD or FD prefix has no effect on this page. Opcodes that the page does not
    /// define do nothing.
    pub fn ed_instructions(&mut self) -> (cycles: u8)
        ensures
            final(self)@ == old(self)@.ed_step().state,
            cycles == old(self)@.ed_step().cycles,
            cycles <= 21,
    {
        reveal(Machine::ed_step);
        reveal(Machine::ed_quarter);
        self.reg.inc_pc();
        let opcode = self.bus.read(self.reg.pc);
        let cycles = ed_cycles(opcode);
        let x = opcode / 64;
        let y = (opcode / 8) % 8;
        let z = opcode % 8;
        if x == 1 {
            match z {
                0 => {
                    let data = self.in_r_c();
                    self.set_r(y, data);
                },
                1 => {
                    let reg = self.get_r(y);
                    self.out_c_r(reg);
                },
                2 | 3 => self.ed_word_group(y, z),
                4 => self.neg(),
                5 => self.ret_from_interrupt(),
                6 => self.set_interrupt_mode(y),
                _ => self.ed_misc_group(y),
            };
            cycles
        } else if x == 2 && y >= 4 && z <= 3 {
            let extra = self.block_instruction(y, z);
            cycles + extra
        } else {
            cycles
        }
    }
}

} // verus!
