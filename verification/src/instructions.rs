use crate::alu::{
    add16_flags, add8, add_flags, add_result, cp_flags, daa_flags, daa_result, dec_flags,
    decimal_adjust, inc_flags, logic_flags, sub8, sub_flags, sub_result, with_xy,
};
use crate::arith::{
    displace, displaced, hi, high, lo, low, make_word, parity, word, wrap_byte, wrap_word,
};
use crate::flags::Flags;
use crate::registers::Registers;
use crate::z80::{Machine, PREFIX_IX, PREFIX_IY, Z80};
use vstd::prelude::*;

verus! {

/// The three logical operations on the accumulator.
#[derive(Clone, Copy, Debug, PartialEq, Eq, Structural)]
pub enum BitOp {
    AND,
    XOR,
    OR,
}

/// The result of the logical operation `op` on `a` and `d`.
pub open spec fn logic_result(op: BitOp, a: u8, d: u8) -> u8 {
    match op {
        BitOp::AND => a & d,
        BitOp::XOR => a ^ d,
        BitOp::OR => a | d,
    }
}

impl Registers {
    /// The file after `A := A + d + carry`.
    pub open spec fn add_a(self, d: u8, carry: bool) -> Registers {
        Registers { a: add_result(self.a, d, carry), flags: add_flags(self.a, d, carry), ..self }
    }

    /// The file after `A := A - d - carry`.
    pub open spec fn sub_a(self, d: u8, carry: bool) -> Registers {
        Registers { a: sub_result(self.a, d, carry), flags: sub_flags(self.a, d, carry), ..self }
    }

    /// The file after comparing A with `d`: only the flags change.
    pub open spec fn compare_a(self, d: u8) -> Registers {
        Registers { flags: cp_flags(self.a, d), ..self }
    }

    /// The file after `A := A op d`. AND sets H; OR and XOR clear it.
    pub open spec fn logic_a(self, op: BitOp, d: u8) -> Registers {
        let r = logic_result(op, self.a, d);
        Registers { a: r, flags: logic_flags(r, op == BitOp::AND), ..self }
    }

    /// The file after decimal adjustment of A.
    pub open spec fn decimal_adjusted(self) -> Registers {
        Registers {
            a: daa_result(self.a, self.flags.h, self.flags.n, self.flags.c),
            flags: daa_flags(self.a, self.flags),
            ..self
        }
    }

    /// The file after complementing A: H and N set, Y and X from the new A.
    pub open spec fn complemented(self) -> Registers {
        Registers {
            a: !self.a,
            flags: with_xy(Flags { h: true, n: true, ..self.flags }, !self.a),
            ..self
        }
    }

    /// The file after inverting the carry: H takes the old carry, N is cleared, Y and
    /// X come from A.
    pub open spec fn carry_complemented(self) -> Registers {
        Registers {
            flags: with_xy(
                Flags { h: self.flags.c, n: false, c: !self.flags.c, ..self.flags },
                self.a,
            ),
            ..self
        }
    }

    /// The file after setting the carry: H and N cleared, Y and X from A.
    pub open spec fn carry_set(self) -> Registers {
        Registers {
            flags: with_xy(Flags { h: false, n: false, c: true, ..self.flags }, self.a),
            ..self
        }
    }
}

impl Machine {
    /// A DD or FD prefix is in effect.
    pub open spec fn prefixed(self) -> bool {
        self.p_inst == PREFIX_IX || self.p_inst == PREFIX_IY
    }

    /// The register that stands for H: IXH or IYH under a prefix.
    pub open spec fn h_sel(self) -> u8 {
        if self.p_inst == PREFIX_IX {
            self.reg.ixh
        } else if self.p_inst == PREFIX_IY {
            self.reg.iyh
        } else {
            self.reg.h
        }
    }

    /// The register that stands for L: IXL or IYL under a prefix.
    pub open spec fn l_sel(self) -> u8 {
        if self.p_inst == PREFIX_IX {
            self.reg.ixl
        } else if self.p_inst == PREFIX_IY {
            self.reg.iyl
        } else {
            self.reg.l
        }
    }

    /// The pair that stands for HL: IX or IY under a prefix.
    pub open spec fn hl_sel(self) -> u16 {
        word(self.h_sel(), self.l_sel())
    }

    /// The state with `v` stored in the register that stands for H.
    #[verifier::opaque]
    pub open spec fn with_h_sel(self, v: u8) -> Machine {
        if self.p_inst == PREFIX_IX {
            self.with_reg(Registers { ixh: v, ..self.reg })
        } else if self.p_inst == PREFIX_IY {
            self.with_reg(Registers { iyh: v, ..self.reg })
        } else {
            self.with_reg(Registers { h: v, ..self.reg })
        }
    }

    /// The state with `v` stored in the register that stands for L.
    #[verifier::opaque]
    pub open spec fn with_l_sel(self, v: u8) -> Machine {
        if self.p_inst == PREFIX_IX {
            self.with_reg(Registers { ixl: v, ..self.reg })
        } else if self.p_inst == PREFIX_IY {
            self.with_reg(Registers { iyl: v, ..self.reg })
        } else {
            self.with_reg(Registers { l: v, ..self.reg })
        }
    }

    /// The state with `v` stored in the pair that stands for HL.
    #[verifier::opaque]
    pub open spec fn with_hl_sel(self, v: u16) -> Machine {
        self.with_h_sel(high(v)).with_l_sel(low(v))
    }

    /// The 8-bit register that the opcode field `i` names: B, C, D, E, H, L, none, A.
    /// Field 6 names the memory operand, not a register, and reads as zero here.
    #[verifier::opaque]
    pub open spec fn r8(self, i: u8) -> u8 {
        if i == 0 {
            self.reg.b
        } else if i == 1 {
            self.reg.c
        } else if i == 2 {
            self.reg.d
        } else if i == 3 {
            self.reg.e
        } else if i == 4 {
            self.reg.h
        } else if i == 5 {
            self.reg.l
        } else if i == 7 {
            self.reg.a
        } else {
            0
        }
    }

    /// The state with `v` stored in the register that the field `i` names; field 6
    /// names none and stores nothing.
    #[verifier::opaque]
    pub open spec fn with_r8(self, i: u8, v: u8) -> Machine {
        if i == 0 {
            self.with_reg(Registers { b: v, ..self.reg })
        } else if i == 1 {
            self.with_reg(Registers { c: v, ..self.reg })
        } else if i == 2 {
            self.with_reg(Registers { d: v, ..self.reg })
        } else if i == 3 {
            self.with_reg(Registers { e: v, ..self.reg })
        } else if i == 4 {
            self.with_reg(Registers { h: v, ..self.reg })
        } else if i == 5 {
            self.with_reg(Registers { l: v, ..self.reg })
        } else if i == 7 {
            self.with_reg(Registers { a: v, ..self.reg })
        } else {
            self
        }
    }

    /// As `r8`, but under a prefix fields 4 and 5 name the halves of the index
    /// register.
    #[verifier::opaque]
    pub open spec fn r8_sel(self, i: u8) -> u8 {
        if i == 4 {
            self.h_sel()
        } else if i == 5 {
            self.l_sel()
        } else {
            self.r8(i)
        }
    }

    /// As `with_r8`, but under a prefix fields 4 and 5 name the halves of the index
    /// register.
    #[verifier::opaque]
    pub open spec fn with_r8_sel(self, i: u8, v: u8) -> Machine {
        if i == 4 {
            self.with_h_sel(v)
        } else if i == 5 {
            self.with_l_sel(v)
        } else {
            self.with_r8(i, v)
        }
    }

    /// The address of the memory operand: HL, or under a prefix the index register
    /// moved by the displacement byte that follows PC.
    pub open spec fn operand_address(self) -> u16 {
        if self.prefixed() {
            displaced(self.hl_sel(), self.at_pc(1))
        } else {
            self.reg.hl()
        }
    }

    /// The state once the displacement byte, if the prefix calls for one, is consumed.
    #[verifier::opaque]
    pub open spec fn past_displacement(self) -> Machine {
        if self.prefixed() {
            self.skip(1)
        } else {
            self
        }
    }

    /// The 16-bit immediate that follows PC, low byte first.
    pub open spec fn immediate_word(self) -> u16 {
        word(self.at_pc(2), self.at_pc(1))
    }

    /// The state with the word `v` pushed: high byte at SP-1, low byte at SP-2.
    #[verifier::opaque]
    pub open spec fn push_word(self, v: u16) -> Machine {
        let sp1 = wrap_word(self.reg.sp - 1);
        let sp2 = wrap_word(self.reg.sp - 2);
        self.write(sp1, high(v)).write(sp2, low(v)).with_reg(self.reg.with_sp(sp2))
    }

    /// The word on top of the stack.
    pub open spec fn top_word(self) -> u16 {
        self.read_word(self.reg.sp)
    }

    /// The state with the top word dropped from the stack.
    #[verifier::opaque]
    pub open spec fn pop_word(self) -> Machine {
        self.with_reg(self.reg.with_sp(wrap_word(self.reg.sp + 2)))
    }

    /// An absolute jump: PC is left one short of the immediate word, for the
    /// increment that ends every step.
    #[verifier::opaque]
    pub open spec fn jump(self) -> Machine {
        self.with_pc(wrap_word(self.immediate_word() - 1))
    }

    /// A relative jump: PC moves onto the displacement byte and then by its signed
    /// value.
    #[verifier::opaque]
    pub open spec fn jump_relative(self) -> Machine {
        self.with_pc(displaced(wrap_word(self.reg.pc + 1), self.at_pc(1)))
    }

    /// A call: the address of the instruction after the three-byte call is pushed,
    /// then PC is left one short of the immediate word.
    #[verifier::opaque]
    pub open spec fn call(self) -> Machine {
        self.push_word(wrap_word(self.reg.pc + 3)).with_pc(wrap_word(self.immediate_word() - 1))
    }

    /// A return: the top word is popped into PC, less one.
    #[verifier::opaque]
    pub open spec fn returned(self) -> Machine {
        self.pop_word().with_pc(wrap_word(self.top_word() - 1))
    }

    /// A restart: the address of the next instruction is pushed, then PC is left one
    /// short of the vector `addr` in page zero.
    #[verifier::opaque]
    pub open spec fn restart(self, addr: u8) -> Machine {
        self.push_word(wrap_word(self.reg.pc + 1)).with_pc(wrap_word(addr - 1))
    }

    /// The state after `HL := HL + rr`, with IX or IY for HL under a prefix.
    #[verifier::opaque]
    pub open spec fn add_to_hl(self, rr: u16) -> Machine {
        let hl = self.hl_sel();
        self.with_reg(self.reg.with_flags(add16_flags(self.reg.flags, hl, rr))).with_hl_sel(
            wrap_word(hl + rr),
        )
    }
}

impl Z80 {
    /// Reads the 16-bit immediate that follows PC, low byte first, and leaves PC on
    /// its second byte.
    pub fn get_nn(&mut self) -> (nn: u16)
        ensures
            nn == old(self)@.immediate_word(),
            final(self)@ == old(self)@.skip(2),
    {
        self.reg.inc_pc();
        let nl = self.bus.read(self.reg.pc);
        self.reg.inc_pc();
        let nh = self.bus.read(self.reg.pc);
        make_word(nh, nl)
    }

    /// Moves PC `n` bytes forward, wrapping at 16 bits.
    pub(crate) fn forward_pc(&mut self, n: u16)
        ensures
            final(self)@ == old(self)@.skip(n as int),
    {
        self.reg.pc = self.reg.pc.wrapping_add(n);
    }

    /// Moves PC `n` bytes back, wrapping at 16 bits.
    pub(crate) fn back_pc(&mut self, n: u16)
        ensures
            final(self)@ == old(self)@.skip(-(n as int)),
    {
        self.reg.pc = self.reg.pc.wrapping_sub(n);
    }

    /// Pushes `v` on the stack, high byte first.
    pub fn push(&mut self, v: u16)
        ensures
            final(self)@ == old(self)@.push_word(v),
    {
        reveal(Machine::push_word);
        self.reg.dec_sp();
        self.bus.write(self.reg.sp, hi(v));
        self.reg.dec_sp();
        self.bus.write(self.reg.sp, lo(v));
    }

    /// Pops the top word off the stack.
    pub fn pop(&mut self) -> (v: u16)
        ensures
            v == old(self)@.top_word(),
            final(self)@ == old(self)@.pop_word(),
    {
        reveal(Machine::pop_word);
        let l = self.bus.read(self.reg.sp);
        self.reg.inc_sp();
        let h = self.bus.read(self.reg.sp);
        self.reg.inc_sp();
        make_word(h, l)
    }

    /// JP nn: PC is left one short of the target, for the increment that ends the step.
    pub(crate) fn jp_nn(&mut self)
        ensures
            final(self)@ == old(self)@.jump(),
    {
        reveal(Machine::jump);
        let nn = self.get_nn();
        self.reg.pc = nn.wrapping_sub(1);
    }

    /// JR e: PC moves onto the displacement byte and then by its signed value.
    pub(crate) fn jr_e(&mut self)
        ensures
            final(self)@ == old(self)@.jump_relative(),
    {
        reveal(Machine::jump_relative);
        self.reg.inc_pc();
        let e = self.bus.read(self.reg.pc);
        self.reg.pc = displace(self.reg.pc, e);
    }

    /// CALL nn: pushes the address after the instruction and jumps.
    pub(crate) fn call_nn(&mut self)
        ensures
            final(self)@ == old(self)@.call(),
    {
        reveal(Machine::push_word);
        reveal(Machine::call);
        let pc = self.reg.pc.wrapping_add(3);
        let nn = self.get_nn();
        self.push(pc);
        self.reg.pc = nn.wrapping_sub(1);
    }

    /// Returns from a subroutine: pops the return address into PC, less the one that
    /// the end of the step adds.
    pub fn ret(&mut self)
        ensures
            final(self)@ == old(self)@.returned(),
    {
        reveal(Machine::returned);
        let pc = self.pop();
        self.reg.pc = pc.wrapping_sub(1);
    }

    /// RST: pushes the address after the instruction and jumps to `addr` in page zero.
    pub(crate) fn rst(&mut self, addr: u8)
        ensures
            final(self)@ == old(self)@.restart(addr),
    {
        reveal(Machine::push_word);
        reveal(Machine::restart);
        let pc = self.reg.pc.wrapping_add(1);
        self.push(pc);
        self.reg.pc = (addr as u16).wrapping_sub(1);
    }

    /// `A := A + data + carry`, with all flags.
    pub(crate) fn add_with_carry(&mut self, data: u8, carry: bool)
        ensures
            final(self)@ == old(self)@.with_reg(old(self).reg.add_a(data, carry)),
    {
        let (r, flags) = add8(self.reg.a, data, carry);
        self.reg.flags = flags;
        self.reg.a = r;
    }

    /// `A := A - data - carry`, with all flags.
    pub(crate) fn sub_with_carry(&mut self, data: u8, carry: bool)
        ensures
            final(self)@ == old(self)@.with_reg(old(self).reg.sub_a(data, carry)),
    {
        let (r, flags) = sub8(self.reg.a, data, carry);
        self.reg.flags = flags;
        self.reg.a = r;
    }

    /// ADD A,r.
    pub(crate) fn add_a_r(&mut self, data: u8)
        ensures
            final(self)@ == old(self)@.with_reg(old(self).reg.add_a(data, false)),
    {
        self.add_with_carry(data, false);
    }

    /// ADC A,r.
    pub(crate) fn adc_a_r(&mut self, data: u8)
        ensures
            final(self)@ == old(self)@.with_reg(old(self).reg.add_a(data, old(self).reg.flags.c)),
    {
        let carry = self.reg.flags.c;
        self.add_with_carry(data, carry);
    }

    /// SUB r.
    pub(crate) fn sub_a_r(&mut self, data: u8)
        ensures
            final(self)@ == old(self)@.with_reg(old(self).reg.sub_a(data, false)),
    {
        self.sub_with_carry(data, false);
    }

    /// SBC A,r.
    pub(crate) fn sbc_a_r(&mut self, data: u8)
        ensures
            final(self)@ == old(self)@.with_reg(old(self).reg.sub_a(data, old(self).reg.flags.c)),
    {
        let carry = self.reg.flags.c;
        self.sub_with_carry(data, carry);
    }

    /// AND r, XOR r and OR r.
    pub(crate) fn bit_op_a_r(&mut self, bit_op: BitOp, data: u8)
        ensures
            final(self)@ == old(self)@.with_reg(old(self).reg.logic_a(bit_op, data)),
    {
        let a = self.reg.a;
        let r = match bit_op {
            BitOp::AND => a & data,
            BitOp::XOR => a ^ data,
            BitOp::OR => a | data,
        };
        self.reg.flags.h = match bit_op {
            BitOp::AND => true,
            _ => false,
        };
        self.reg.flags.p = parity(r);
        self.reg.flags.n = false;
        self.reg.flags.c = false;
        self.reg.flags.set_szxy(r);
        self.reg.a = r;
    }

    /// CP r: the flags of `A - data`, with Y and X from `data`; A keeps its value.
    pub(crate) fn cp_r(&mut self, data: u8)
        ensures
            final(self)@ == old(self)@.with_reg(old(self).reg.compare_a(data)),
    {
        let a = self.reg.a;
        self.sub_with_carry(data, false);
        self.reg.flags.set_xy(data);
        self.reg.a = a;
    }

    /// INC r: returns `data + 1` and sets the flags; the caller stores the result.
    pub(crate) fn inc_r(&mut self, data: u8) -> (r: u8)
        ensures
            r == wrap_byte(data + 1),
            final(self)@ == old(self)@.with_reg(
                old(self).reg.with_flags(inc_flags(old(self).reg.flags, data)),
            ),
    {
        let r = data.wrapping_add(1);
        self.reg.flags.h = data % 16 == 0x0F;
        self.reg.flags.p = data == 0x7F;
        self.reg.flags.n = false;
        self.reg.flags.set_szxy(r);
        r
    }

    /// DEC r: returns `data - 1` and sets the flags; the caller stores the result.
    pub(crate) fn dec_r(&mut self, data: u8) -> (r: u8)
        ensures
            r == wrap_byte(data - 1),
            final(self)@ == old(self)@.with_reg(
                old(self).reg.with_flags(dec_flags(old(self).reg.flags, data)),
            ),
    {
        let r = data.wrapping_sub(1);
        self.reg.flags.h = data % 16 == 0x00;
        self.reg.flags.p = data == 0x80;
        self.reg.flags.n = true;
        self.reg.flags.set_szxy(r);
        r
    }

    /// ADD HL,rr, or ADD IX,rr and ADD IY,rr under a prefix.
    pub(crate) fn add_hl_ix_iy_rr(&mut self, reg: u16)
        ensures
            final(self)@ == old(self)@.add_to_hl(reg),
    {
        reveal(Machine::add_to_hl);
        let hl = self.get_hl_ix_iy();
        let r = hl.wrapping_add(reg);
        self.reg.flags.h = (hl % 0x1000) + (reg % 0x1000) > 0x0FFF;
        self.reg.flags.n = false;
        self.reg.flags.c = (hl as u32) + (reg as u32) > 0xFFFF;
        self.reg.flags.set_xy(hi(r));
        self.set_hl_ix_iy(r);
    }

    /// DAA: decimal adjustment of A after an addition or a subtraction.
    pub(crate) fn daa(&mut self)
        ensures
            final(self)@ == old(self)@.with_reg(old(self).reg.decimal_adjusted()),
    {
        let a = self.reg.a;
        let flags = self.reg.flags;
        let (r, half) = decimal_adjust(a, flags.h, flags.n, flags.c);
        self.reg.flags.h = half;
        self.reg.flags.p = parity(r);
        self.reg.flags.c = flags.c || a > 0x99;
        self.reg.flags.set_szxy(r);
        self.reg.a = r;
    }

    /// CPL: complements A.
    pub(crate) fn cpl(&mut self)
        ensures
            final(self)@ == old(self)@.with_reg(old(self).reg.complemented()),
    {
        self.reg.a = !self.reg.a;
        self.reg.flags.h = true;
        self.reg.flags.n = true;
        self.reg.flags.set_xy(self.reg.a);
    }

    /// CCF: inverts the carry flag.
    pub(crate) fn ccf(&mut self)
        ensures
            final(self)@ == old(self)@.with_reg(old(self).reg.carry_complemented()),
    {
        self.reg.flags.h = self.reg.flags.c;
        self.reg.flags.n = false;
        self.reg.flags.c = !self.reg.flags.c;
        self.reg.flags.set_xy(self.reg.a);
    }

    /// SCF: sets the carry flag.
    pub(crate) fn scf(&mut self)
        ensures
            final(self)@ == old(self)@.with_reg(old(self).reg.carry_set()),
    {
        self.reg.flags.h = false;
        self.reg.flags.n = false;
        self.reg.flags.c = true;
        self.reg.flags.set_xy(self.reg.a);
    }

    /// H, or IXH or IYH under a prefix.
    pub(crate) fn get_h_ixh_iyh(&self) -> (r: u8)
        ensures
            r == self@.h_sel(),
    {
        match self.p_inst {
            0xDD => self.reg.ixh,
            0xFD => self.reg.iyh,
            _ => self.reg.h,
        }
    }

    /// Stores `reg` in H, or in IXH or IYH under a prefix.
    pub(crate) fn set_h_ixh_iyh(&mut self, reg: u8)
        ensures
            final(self)@ == old(self)@.with_h_sel(reg),
    {
        reveal(Machine::with_h_sel);
        match self.p_inst {
            0xDD => self.reg.ixh = reg,
            0xFD => self.reg.iyh = reg,
            _ => self.reg.h = reg,
        };
    }

    /// L, or IXL or IYL under a prefix.
    pub(crate) fn get_l_ixl_iyl(&self) -> (r: u8)
        ensures
            r == self@.l_sel(),
    {
        match self.p_inst {
            0xDD => self.reg.ixl,
            0xFD => self.reg.iyl,
            _ => self.reg.l,
        }
    }

    /// Stores `reg` in L, or in IXL or IYL under a prefix.
    pub(crate) fn set_l_ixl_iyl(&mut self, reg: u8)
        ensures
            final(self)@ == old(self)@.with_l_sel(reg),
    {
        reveal(Machine::with_l_sel);
        match self.p_inst {
            0xDD => self.reg.ixl = reg,
            0xFD => self.reg.iyl = reg,
            _ => self.reg.l = reg,
        };
    }

    /// HL, or IX or IY under a prefix.
    pub(crate) fn get_hl_ix_iy(&self) -> (r: u16)
        ensures
            r == self@.hl_sel(),
    {
        match self.p_inst {
            0xDD => self.reg.get_ix(),
            0xFD => self.reg.get_iy(),
            _ => self.reg.get_hl(),
        }
    }

    /// Stores `data` in HL, or in IX or IY under a prefix.
    pub(crate) fn set_hl_ix_iy(&mut self, data: u16)
        ensures
            final(self)@ == old(self)@.with_hl_sel(data),
    {
        reveal(Machine::with_h_sel);
        reveal(Machine::with_l_sel);
        reveal(Machine::with_hl_sel);
        match self.p_inst {
            0xDD => self.reg.set_ix(data),
            0xFD => self.reg.set_iy(data),
            _ => self.reg.set_hl(data),
        };
    }

    /// The register that the opcode field `i` names.
    pub(crate) fn get_r(&self, i: u8) -> (r: u8)
        ensures
            r == self@.r8(i),
    {
        reveal(Machine::r8);
        match i {
            0 => self.reg.b,
            1 => self.reg.c,
            2 => self.reg.d,
            3 => self.reg.e,
            4 => self.reg.h,
            5 => self.reg.l,
            7 => self.reg.a,
            _ => 0,
        }
    }

    /// Stores `v` in the register that the opcode field `i` names.
    pub(crate) fn set_r(&mut self, i: u8, v: u8)
        ensures
            final(self)@ == old(self)@.with_r8(i, v),
    {
        reveal(Machine::with_r8);
        match i {
            0 => self.reg.b = v,
            1 => self.reg.c = v,
            2 => self.reg.d = v,
            3 => self.reg.e = v,
            4 => self.reg.h = v,
            5 => self.reg.l = v,
            7 => self.reg.a = v,
            _ => {},
        };
    }

    /// As `get_r`, with H and L rewired to the index register under a prefix.
    pub(crate) fn get_r_sel(&self, i: u8) -> (r: u8)
        ensures
            r == self@.r8_sel(i),
    {
        reveal(Machine::r8_sel);
        match i {
            4 => self.get_h_ixh_iyh(),
            5 => self.get_l_ixl_iyl(),
            _ => self.get_r(i),
        }
    }

    /// As `set_r`, with H and L rewired to the index register under a prefix.
    pub(crate) fn set_r_sel(&mut self, i: u8, v: u8)
        ensures
            final(self)@ == old(self)@.with_r8_sel(i, v),
    {
        reveal(Machine::with_r8_sel);
        match i {
            4 => self.set_h_ixh_iyh(v),
            5 => self.set_l_ixl_iyl(v),
            _ => self.set_r(i, v),
        };
    }

    /// Whether a DD or FD prefix is in effect.
    pub(crate) fn is_prefixed(&self) -> (r: bool)
        ensures
            r == self@.prefixed(),
    {
        self.p_inst == PREFIX_IX || self.p_inst == PREFIX_IY
    }

    /// The address of the memory operand; under a prefix this consumes the
    /// displacement byte.
    pub(crate) fn hl_ix_iy_address(&mut self) -> (addr: u16)
        ensures
            addr == old(self)@.operand_address(),
            final(self)@ == old(self)@.past_displacement(),
    {
        reveal(Machine::past_displacement);
        match self.p_inst {
            0xDD => {
                self.reg.inc_pc();
                let d = self.bus.read(self.reg.pc);
                displace(self.reg.get_ix(), d)
            },
            0xFD => {
                self.reg.inc_pc();
                let d = self.bus.read(self.reg.pc);
                displace(self.reg.get_iy(), d)
            },
            _ => self.reg.get_hl(),
        }
    }

    /// Reads the memory operand: (HL), or (IX+d) or (IY+d) under a prefix.
    pub(crate) fn read_hl_ix_iy(&mut self) -> (data: u8)
        ensures
            data == old(self)@.read(old(self)@.operand_address()),
            final(self)@ == old(self)@.past_displacement(),
    {
        reveal(Machine::past_displacement);
        let addr = self.hl_ix_iy_address();
        self.bus.read(addr)
    }

    /// Writes `reg` to the memory operand: (HL), or (IX+d) or (IY+d) under a prefix.
    pub(crate) fn write_hl_ix_iy(&mut self, reg: u8)
        ensures
            final(self)@ == old(self)@.past_displacement().write(
                old(self)@.operand_address(),
                reg,
            ),
    {
        reveal(Machine::past_displacement);
        let addr = self.hl_ix_iy_address();
        self.bus.write(addr, reg);
    }
}

} // verus!
