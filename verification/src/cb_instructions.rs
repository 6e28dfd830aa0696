use crate::alu::{bit_flags, bit_mask, mask_of, shift, shift_flags, shift_result, with_xy};
use crate::arith::{displace, displaced, hi, high, parity};
use crate::cycles::{cb_cycles, cb_entry, index_cb_cycles, index_cb_entry};
use crate::z80::{Machine, Step, Z80};
use vstd::prelude::*;

verus! {

impl Machine {
    /// The address that an indexed bit operation works on: the index register moved
    /// by the displacement `d`.
    pub open spec fn indexed(self, d: u8) -> u16 {
        displaced(self.hl_sel(), d)
    }

    /// The byte that a bit operation works on: under a prefix the memory byte at the
    /// indexed address, else the value `reg` that the caller read.
    pub open spec fn bit_operand(self, reg: u8, d: u8) -> u8 {
        if self.prefixed() {
            self.read(self.indexed(d))
        } else {
            reg
        }
    }

    /// The state with `r` written back to the indexed address under a prefix; without
    /// a prefix the caller stores the result.
    #[verifier::opaque]
    pub open spec fn written_back(self, d: u8, r: u8) -> Machine {
        if self.prefixed() {
            self.write(self.indexed(d), r)
        } else {
            self
        }
    }

    /// The result of the rotate or shift `kind` on the operand.
    pub open spec fn shift_value(self, kind: u8, reg: u8, d: u8) -> u8 {
        shift_result(kind, self.bit_operand(reg, d), self.reg.flags.c)
    }

    /// The state after the rotate or shift `kind`: flags from the operation, and the
    /// result written back to memory under a prefix.
    #[verifier::opaque]
    pub open spec fn shifted(self, kind: u8, reg: u8, d: u8) -> Machine {
        self.with_reg(
            self.reg.with_flags(shift_flags(kind, self.bit_operand(reg, d), self.reg.flags.c)),
        ).written_back(d, self.shift_value(kind, reg, d))
    }

    /// The state after testing bit `bit` of the operand. Y and X come from the high
    /// byte of the indexed address under a prefix, else from `reg`.
    #[verifier::opaque]
    pub open spec fn bit_tested(self, bit: u8, reg: u8, d: u8) -> Machine {
        let xy = if self.prefixed() {
            high(self.indexed(d))
        } else {
            reg
        };
        self.with_reg(
            self.reg.with_flags(bit_flags(self.reg.flags, bit, self.bit_operand(reg, d), xy)),
        )
    }

    /// The operand with bit `bit` cleared.
    pub open spec fn res_value(self, bit: u8, reg: u8, d: u8) -> u8 {
        self.bit_operand(reg, d) & !bit_mask(bit)
    }

    /// The operand with bit `bit` set.
    pub open spec fn set_value(self, bit: u8, reg: u8, d: u8) -> u8 {
        self.bit_operand(reg, d) | bit_mask(bit)
    }

    /// The opcode of a CB-page instruction while PC is on the CB byte: the next byte,
    /// or under a prefix the one after the displacement.
    pub open spec fn cb_opcode(self) -> u8 {
        if self.prefixed() {
            self.at_pc(2)
        } else {
            self.at_pc(1)
        }
    }

    /// The displacement of a CB-page instruction: the byte after CB under a prefix,
    /// else zero.
    pub open spec fn cb_displacement(self) -> u8 {
        if self.prefixed() {
            self.at_pc(1)
        } else {
            0
        }
    }

    /// The state with PC on the last byte of the CB-page instruction.
    #[verifier::opaque]
    pub open spec fn cb_fetched(self) -> Machine {
        if self.prefixed() {
            self.skip(2)
        } else {
            self.skip(1)
        }
    }

    /// The value that a CB-page instruction reads for the register field `z` without
    /// a prefix: the memory byte at HL for field 6, else the register.
    #[verifier::opaque]
    pub open spec fn cb_source(self, z: u8) -> u8 {
        if self.prefixed() {
            0
        } else if z == 6 {
            self.read(self.reg.hl())
        } else {
            self.r8(z)
        }
    }

    /// The state with the result `r` of a CB-page instruction stored for the register
    /// field `z`: in the register it names, which under a prefix receives a copy of
    /// what was written to memory; for field 6 in memory at HL, unless a prefix has
    /// already written it back.
    #[verifier::opaque]
    pub open spec fn cb_stored(self, z: u8, r: u8) -> Machine {
        if z != 6 {
            self.with_r8(z, r)
        } else if self.prefixed() {
            self
        } else {
            self.write(self.reg.hl(), r)
        }
    }

    /// The T-states of the CB-page opcode `opcode`: its table entry, and what the
    /// prefix adds.
    pub open spec fn cb_cycles(self, opcode: u8) -> int {
        if self.prefixed() {
            cb_entry(opcode) + index_cb_entry(opcode)
        } else {
            cb_entry(opcode)
        }
    }

    /// The state after the CB-page instruction whose CB byte PC is on; PC is left on
    /// the instruction's last byte.
    ///
    /// The opcode's top two bits pick rotate/shift, BIT, RES or SET; bits 5..3 the
    /// kind of shift or the bit number; bits 2..0 the register field.
    #[verifier::opaque]
    pub open spec fn cb_state(self) -> Machine {
        let opcode = self.cb_opcode();
        let d = self.cb_displacement();
        let m = self.cb_fetched();
        let x = opcode / 64;
        let y = (opcode / 8) % 8;
        let z = opcode % 8;
        let reg = m.cb_source(z);
        if x == 0 {
            m.shifted(y, reg, d).cb_stored(z, m.shift_value(y, reg, d))
        } else if x == 1 {
            let tested = m.bit_tested(y, reg, d);
            if z == 6 && !m.prefixed() {
                tested.with_flags(with_xy(tested.reg.flags, m.reg.h))
            } else {
                tested
            }
        } else if x == 2 {
            let r = m.res_value(y, reg, d);
            m.written_back(d, r).cb_stored(z, r)
        } else {
            let r = m.set_value(y, reg, d);
            m.written_back(d, r).cb_stored(z, r)
        }
    }

    /// The CB-page instruction whose CB byte PC is on: the state after it and its
    /// T-states.
    #[verifier::opaque]
    pub open spec fn cb_step(self) -> Step {
        Step { state: self.cb_state(), cycles: self.cb_cycles(self.cb_opcode()) }
    }
}

impl Z80 {
    /// The address of an indexed bit operation.
    fn indexed_address(&self, d: u8) -> (addr: u16)
        ensures
            addr == self@.indexed(d),
    {
        displace(self.get_hl_ix_iy(), d)
    }

    /// The operand of a bit operation: read from memory under a prefix, else `reg`.
    fn fetch_bit_operand(&self, reg: u8, d: u8) -> (data: u8)
        ensures
            data == self@.bit_operand(reg, d),
    {
        if self.is_prefixed() {
            self.bus.read(self.indexed_address(d))
        } else {
            reg
        }
    }

    /// Writes the result of a bit operation back to memory under a prefix.
    fn write_back(&mut self, d: u8, r: u8)
        ensures
            final(self)@ == old(self)@.written_back(d, r),
    {
        reveal(Machine::written_back);
        if self.is_prefixed() {
            let addr = self.indexed_address(d);
            self.bus.write(addr, r);
        }
    }

    /// The rotate or shift `kind` on the operand, with its flags.
    fn shift_r(&mut self, kind: u8, reg: u8, d: u8) -> (r: u8)
        ensures
            r == old(self)@.shift_value(kind, reg, d),
            final(self)@ == old(self)@.shifted(kind, reg, d),
    {
        reveal(Machine::shifted);
        let data = self.fetch_bit_operand(reg, d);
        let r = shift(kind, data, self.reg.flags.c);
        self.reg.flags.h = false;
        self.reg.flags.p = parity(r);
        self.reg.flags.n = false;
        self.reg.flags.c = if kind % 2 == 0 {
            data >= 0x80
        } else {
            data % 2 == 1
        };
        self.reg.flags.set_szxy(r);
        self.write_back(d, r);
        r
    }

    /// RLC: rotate left, bit 7 to carry and to bit 0.
    pub(crate) fn rlc_r(&mut self, reg: u8, d: u8) -> (r: u8)
        ensures
            r == old(self)@.shift_value(0, reg, d),
            final(self)@ == old(self)@.shifted(0, reg, d),
    {
        reveal(Machine::shifted);
        self.shift_r(0, reg, d)
    }

    /// RRC: rotate right, bit 0 to carry and to bit 7.
    pub(crate) fn rrc_r(&mut self, reg: u8, d: u8) -> (r: u8)
        ensures
            r == old(self)@.shift_value(1, reg, d),
            final(self)@ == old(self)@.shifted(1, reg, d),
    {
        reveal(Machine::shifted);
        self.shift_r(1, reg, d)
    }

    /// RL: rotate left through carry.
    pub(crate) fn rl_r(&mut self, reg: u8, d: u8) -> (r: u8)
        ensures
            r == old(self)@.shift_value(2, reg, d),
            final(self)@ == old(self)@.shifted(2, reg, d),
    {
        reveal(Machine::shifted);
        self.shift_r(2, reg, d)
    }

    /// RR: rotate right through carry.
    pub(crate) fn rr_r(&mut self, reg: u8, d: u8) -> (r: u8)
        ensures
            r == old(self)@.shift_value(3, reg, d),
            final(self)@ == old(self)@.shifted(3, reg, d),
    {
        reveal(Machine::shifted);
        self.shift_r(3, reg, d)
    }

    /// SLA: shift left, zero into bit 0.
    pub(crate) fn sla_r(&mut self, reg: u8, d: u8) -> (r: u8)
        ensures
            r == old(self)@.shift_value(4, reg, d),
            final(self)@ == old(self)@.shifted(4, reg, d),
    {
        reveal(Machine::shifted);
        self.shift_r(4, reg, d)
    }

    /// SRA: shift right, bit 7 kept.
    pub(crate) fn sra_r(&mut self, reg: u8, d: u8) -> (r: u8)
        ensures
            r == old(self)@.shift_value(5, reg, d),
            final(self)@ == old(self)@.shifted(5, reg, d),
    {
        reveal(Machine::shifted);
        self.shift_r(5, reg, d)
    }

    /// SLL: shift left, one into bit 0.
    pub(crate) fn sll_r(&mut self, reg: u8, d: u8) -> (r: u8)
        ensures
            r == old(self)@.shift_value(6, reg, d),
            final(self)@ == old(self)@.shifted(6, reg, d),
    {
        reveal(Machine::shifted);
        self.shift_r(6, reg, d)
    }

    /// SRL: shift right, zero into bit 7.
    pub(crate) fn srl_r(&mut self, reg: u8, d: u8) -> (r: u8)
        ensures
            r == old(self)@.shift_value(7, reg, d),
            final(self)@ == old(self)@.shifted(7, reg, d),
    {
        reveal(Machine::shifted);
        self.shift_r(7, reg, d)
    }

    /// BIT: tests bit `bit` of the operand; only the flags change.
    pub(crate) fn bit_b_r(&mut self, bit: u8, reg: u8, d: u8)
        requires
            bit < 8,
        ensures
            final(self)@ == old(self)@.bit_tested(bit, reg, d),
    {
        reveal(Machine::bit_tested);
        let mask = mask_of(bit);
        let data = self.fetch_bit_operand(reg, d);
        let xy = if self.is_prefixed() {
            hi(self.indexed_address(d))
        } else {
            reg
        };
        let clear = data & mask == 0x00;
        self.reg.flags.s = bit == 7 && !clear;
        self.reg.flags.z = clear;
        self.reg.flags.h = true;
        self.reg.flags.p = clear;
        self.reg.flags.n = false;
        self.reg.flags.set_xy(xy);
    }

    /// RES: clears bit `bit` of the operand.
    pub(crate) fn res_b_r(&mut self, bit: u8, reg: u8, d: u8) -> (r: u8)
        requires
            bit < 8,
        ensures
            r == old(self)@.res_value(bit, reg, d),
            final(self)@ == old(self)@.written_back(d, r),
    {
        reveal(Machine::written_back);
        let data = self.fetch_bit_operand(reg, d);
        let r = data & !mask_of(bit);
        self.write_back(d, r);
        r
    }

    /// SET: sets bit `bit` of the operand.
    pub(crate) fn set_b_r(&mut self, bit: u8, reg: u8, d: u8) -> (r: u8)
        requires
            bit < 8,
        ensures
            r == old(self)@.set_value(bit, reg, d),
            final(self)@ == old(self)@.written_back(d, r),
    {
        reveal(Machine::written_back);
        let data = self.fetch_bit_operand(reg, d);
        let r = data | mask_of(bit);
        self.write_back(d, r);
        r
    }

    /// Copies Y and X from bits 5 and 3 of `v`.
    fn set_flags_xy(&mut self, v: u8)
        ensures
            final(self)@ == old(self)@.with_flags(with_xy(old(self).reg.flags, v)),
    {
        reveal(Machine::with_flags);
        self.reg.flags.set_xy(v);
    }

    /// Reads what a CB-page instruction works on for the register field `z`.
    fn cb_read(&self, z: u8) -> (reg: u8)
        ensures
            reg == self@.cb_source(z),
    {
        reveal(Machine::cb_source);
        reveal(Machine::r8);
        if self.is_prefixed() {
            0
        } else if z == 6 {
            self.bus.read(self.reg.get_hl())
        } else {
            self.get_r(z)
        }
    }

    /// Stores the result of a CB-page instruction for the register field `z`.
    fn cb_store(&mut self, z: u8, r: u8)
        ensures
            final(self)@ == old(self)@.cb_stored(z, r),
    {
        reveal(Machine::cb_stored);
        if z != 6 {
            self.set_r(z, r);
        } else if !self.is_prefixed() {
            let addr = self.reg.get_hl();
            self.bus.write(addr, r);
        }
    }

    /// Executes the CB-page instruction whose CB byte PC is on, and returns its
    /// T-states. PC is left on the instruction's last byte.
    ///
    /// Without a prefix the opcode follows the CB byte. With a DD or FD prefix in
    /// effect the displacement follows it and the opcode comes last; the operation
    /// then works on the byte at the index register plus the displacement, and a
    /// register field other than 6 receives a copy of the result.
    pub fn cb_instructions(&mut self) -> (cycles: u8)
        ensures
            final(self)@ == old(self)@.cb_step().state,
            cycles == old(self)@.cb_step().cycles,
            cycles <= 30,
    {
        reveal(Machine::cb_fetched);
        reveal(Machine::cb_state);
        reveal(Machine::cb_step);
        let prefixed = self.is_prefixed();
        let d = if prefixed {
            self.reg.inc_pc();
            self.bus.read(self.reg.pc)
        } else {
            0_u8
        };
        self.reg.inc_pc();
        let opcode = self.bus.read(self.reg.pc);
        let x = opcode / 64;
        let y = (opcode / 8) % 8;
        let z = opcode % 8;
        let reg = self.cb_read(z);
        if x == 0 {
            let r = match y {
                0 => self.rlc_r(reg, d),
                1 => self.rrc_r(reg, d),
                2 => self.rl_r(reg, d),
                3 => self.rr_r(reg, d),
                4 => self.sla_r(reg, d),
                5 => self.sra_r(reg, d),
                6 => self.sll_r(reg, d),
                _ => self.srl_r(reg, d),
            };
            self.cb_store(z, r);
        } else if x == 1 {
            let h = self.reg.h;
            self.bit_b_r(y, reg, d);
            if z == 6 && !prefixed {
                self.set_flags_xy(h);
            }
        } else if x == 2 {
            let r = self.res_b_r(y, reg, d);
            self.cb_store(z, r);
        } else {
            let r = self.set_b_r(y, reg, d);
            self.cb_store(z, r);
        }
        if prefixed {
            cb_cycles(opcode) + index_cb_cycles(opcode)
        } else {
            cb_cycles(opcode)
        }
    }
}

} // verus!
