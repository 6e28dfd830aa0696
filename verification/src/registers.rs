use crate::arith::{hi, high, lo, low, make_word, word, wrap_word};
use crate::flags::{lemma_pack_unpack, lemma_unpack_pack, Flags};
use vstd::prelude::*;

verus! {

/// The programmer-visible register file.
#[derive(Clone, Copy, Debug, PartialEq, Eq, Structural)]
pub struct Registers {
    pub a: u8,
    pub b: u8,
    pub c: u8,
    pub d: u8,
    pub e: u8,
    pub h: u8,
    pub l: u8,
    pub ixh: u8,
    pub ixl: u8,
    pub iyh: u8,
    pub iyl: u8,
    /// Interrupt page register.
    pub i: u8,
    /// Memory refresh register.
    pub r: u8,
    pub sp: u16,
    pub pc: u16,
    pub flags: Flags,
    /// Alternate AF'.
    pub eaf: u16,
    /// Alternate BC'.
    pub ebc: u16,
    /// Alternate DE'.
    pub ede: u16,
    /// Alternate HL'.
    pub ehl: u16,
}

impl Registers {
    /// The register file after power-on or reset: every 8-bit register 0xFF, every
    /// flag set, SP and the alternates 0xFFFF, PC zero.
    pub open spec fn initial() -> Registers {
        Registers {
            a: 0xFF,
            b: 0xFF,
            c: 0xFF,
            d: 0xFF,
            e: 0xFF,
            h: 0xFF,
            l: 0xFF,
            ixh: 0xFF,
            ixl: 0xFF,
            iyh: 0xFF,
            iyl: 0xFF,
            i: 0xFF,
            r: 0xFF,
            sp: 0xFFFF,
            pc: 0x0000,
            flags: Flags::all_set(),
            eaf: 0xFFFF,
            ebc: 0xFFFF,
            ede: 0xFFFF,
            ehl: 0xFFFF,
        }
    }

    /// The pair AF: A high, the packed flags low.
    pub open spec fn af(self) -> u16 {
        word(self.a, self.flags.pack())
    }

    pub open spec fn bc(self) -> u16 {
        word(self.b, self.c)
    }

    pub open spec fn de(self) -> u16 {
        word(self.d, self.e)
    }

    pub open spec fn hl(self) -> u16 {
        word(self.h, self.l)
    }

    pub open spec fn ix(self) -> u16 {
        word(self.ixh, self.ixl)
    }

    pub open spec fn iy(self) -> u16 {
        word(self.iyh, self.iyl)
    }

    /// The pair IR: I high, R low.
    pub open spec fn ir(self) -> u16 {
        word(self.i, self.r)
    }

    /// The file with AF loaded from `val`: A from the high byte, the flags unpacked
    /// from the low byte.
    pub open spec fn with_af(self, val: u16) -> Registers {
        Registers { a: high(val), flags: Flags::unpack(low(val)), ..self }
    }

    pub open spec fn with_bc(self, val: u16) -> Registers {
        Registers { b: high(val), c: low(val), ..self }
    }

    pub open spec fn with_de(self, val: u16) -> Registers {
        Registers { d: high(val), e: low(val), ..self }
    }

    pub open spec fn with_hl(self, val: u16) -> Registers {
        Registers { h: high(val), l: low(val), ..self }
    }

    pub open spec fn with_ix(self, val: u16) -> Registers {
        Registers { ixh: high(val), ixl: low(val), ..self }
    }

    pub open spec fn with_iy(self, val: u16) -> Registers {
        Registers { iyh: high(val), iyl: low(val), ..self }
    }

    pub open spec fn with_ir(self, val: u16) -> Registers {
        Registers { i: high(val), r: low(val), ..self }
    }

    pub open spec fn with_pc(self, val: u16) -> Registers {
        Registers { pc: val, ..self }
    }

    pub open spec fn with_sp(self, val: u16) -> Registers {
        Registers { sp: val, ..self }
    }

    pub open spec fn with_flags(self, flags: Flags) -> Registers {
        Registers { flags, ..self }
    }

    /// The register file in its power-on state.
    pub fn new() -> (reg: Self)
        ensures
            reg == Registers::initial(),
    {
        Self {
            a: 0xFF,
            b: 0xFF,
            c: 0xFF,
            d: 0xFF,
            e: 0xFF,
            h: 0xFF,
            l: 0xFF,
            ixh: 0xFF,
            ixl: 0xFF,
            iyh: 0xFF,
            iyl: 0xFF,
            i: 0xFF,
            r: 0xFF,
            sp: 0xFFFF,
            pc: 0x0000,
            flags: Flags::new(),
            eaf: 0xFFFF,
            ebc: 0xFFFF,
            ede: 0xFFFF,
            ehl: 0xFFFF,
        }
    }

    /// The pair AF: A high, the packed flags low.
    pub fn get_af(&self) -> (val: u16)
        ensures
            val == self.af(),
    {
        make_word(self.a, self.flags.to_byte())
    }

    /// Loads A from the high byte of `val` and the flags from its low byte.
    pub fn set_af(&mut self, val: u16)
        ensures
            *final(self) == old(self).with_af(val),
    {
        self.a = hi(val);
        self.flags.from_byte(lo(val));
    }

    /// The pair BC.
    pub fn get_bc(&self) -> (val: u16)
        ensures
            val == self.bc(),
    {
        make_word(self.b, self.c)
    }

    /// Loads B from the high byte of `val` and C from its low byte.
    pub fn set_bc(&mut self, val: u16)
        ensures
            *final(self) == old(self).with_bc(val),
    {
        self.b = hi(val);
        self.c = lo(val);
    }

    /// The pair DE.
    pub fn get_de(&self) -> (val: u16)
        ensures
            val == self.de(),
    {
        make_word(self.d, self.e)
    }

    /// Loads D from the high byte of `val` and E from its low byte.
    pub fn set_de(&mut self, val: u16)
        ensures
            *final(self) == old(self).with_de(val),
    {
        self.d = hi(val);
        self.e = lo(val);
    }

    /// The pair HL.
    pub fn get_hl(&self) -> (val: u16)
        ensures
            val == self.hl(),
    {
        make_word(self.h, self.l)
    }

    /// Loads H from the high byte of `val` and L from its low byte.
    pub fn set_hl(&mut self, val: u16)
        ensures
            *final(self) == old(self).with_hl(val),
    {
        self.h = hi(val);
        self.l = lo(val);
    }

    /// The index register IX.
    pub fn get_ix(&self) -> (val: u16)
        ensures
            val == self.ix(),
    {
        make_word(self.ixh, self.ixl)
    }

    /// Loads IXH from the high byte of `val` and IXL from its low byte.
    pub fn set_ix(&mut self, val: u16)
        ensures
            *final(self) == old(self).with_ix(val),
    {
        self.ixh = hi(val);
        self.ixl = lo(val);
    }

    /// The index register IY.
    pub fn get_iy(&self) -> (val: u16)
        ensures
            val == self.iy(),
    {
        make_word(self.iyh, self.iyl)
    }

    /// Loads IYH from the high byte of `val` and IYL from its low byte.
    pub fn set_iy(&mut self, val: u16)
        ensures
            *final(self) == old(self).with_iy(val),
    {
        self.iyh = hi(val);
        self.iyl = lo(val);
    }

    /// The pair IR: I high, R low.
    pub fn get_ir(&self) -> (val: u16)
        ensures
            val == self.ir(),
    {
        make_word(self.i, self.r)
    }

    /// Loads I from the high byte of `val` and R from its low byte.
    pub fn set_ir(&mut self, val: u16)
        ensures
            *final(self) == old(self).with_ir(val),
    {
        self.i = hi(val);
        self.r = lo(val);
    }

    /// Moves PC one byte forward, wrapping from 0xFFFF to 0.
    pub fn inc_pc(&mut self)
        ensures
            *final(self) == old(self).with_pc(wrap_word(old(self).pc + 1)),
    {
        self.pc = self.pc.wrapping_add(1);
    }

    /// Moves PC one byte back, wrapping from 0 to 0xFFFF.
    pub fn dec_pc(&mut self)
        ensures
            *final(self) == old(self).with_pc(wrap_word(old(self).pc - 1)),
    {
        self.pc = self.pc.wrapping_sub(1);
    }

    /// Moves SP one byte up, wrapping from 0xFFFF to 0.
    pub fn inc_sp(&mut self)
        ensures
            *final(self) == old(self).with_sp(wrap_word(old(self).sp + 1)),
    {
        self.sp = self.sp.wrapping_add(1);
    }

    /// Moves SP one byte down, wrapping from 0 to 0xFFFF.
    pub fn dec_sp(&mut self)
        ensures
            *final(self) == old(self).with_sp(wrap_word(old(self).sp - 1)),
    {
        self.sp = self.sp.wrapping_sub(1);
    }

    /// Restores the power-on state.
    pub fn reset(&mut self)
        ensures
            *final(self) == Registers::initial(),
    {
        self.a = 0xFF;
        self.b = 0xFF;
        self.c = 0xFF;
        self.d = 0xFF;
        self.e = 0xFF;
        self.h = 0xFF;
        self.l = 0xFF;
        self.ixh = 0xFF;
        self.ixl = 0xFF;
        self.iyh = 0xFF;
        self.iyl = 0xFF;
        self.i = 0xFF;
        self.r = 0xFF;
        self.sp = 0xFFFF;
        self.pc = 0x0000;
        self.flags = Flags::new();
        self.eaf = 0xFFFF;
        self.ebc = 0xFFFF;
        self.ede = 0xFFFF;
        self.ehl = 0xFFFF;
    }
}

/// Storing a pair's own value back into it changes nothing, for each of AF, BC, DE,
/// HL, IX, IY and IR.
pub proof fn lemma_set_get_identity(reg: Registers)
    ensures
        reg.with_af(reg.af()) == reg,
        reg.with_bc(reg.bc()) == reg,
        reg.with_de(reg.de()) == reg,
        reg.with_hl(reg.hl()) == reg,
        reg.with_ix(reg.ix()) == reg,
        reg.with_iy(reg.iy()) == reg,
        reg.with_ir(reg.ir()) == reg,
{
    lemma_unpack_pack(reg.flags);
}

/// A pair reads back the value that was stored into it, for each of AF, BC, DE, HL,
/// IX, IY and IR.
pub proof fn lemma_get_set_identity(reg: Registers, val: u16)
    ensures
        reg.with_af(val).af() == val,
        reg.with_bc(val).bc() == val,
        reg.with_de(val).de() == val,
        reg.with_hl(val).hl() == val,
        reg.with_ix(val).ix() == val,
        reg.with_iy(val).iy() == val,
        reg.with_ir(val).ir() == val,
{
    lemma_pack_unpack(low(val));
}

} // verus!
