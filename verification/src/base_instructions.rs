use crate::alu::{rotate_a_flags, shift, shift_result, step_flags};
use crate::arith::{make_word, word, wrap_byte, wrap_word};
use crate::bus::{io_input, read_io, write_io};
use crate::cycles::{base_cycles, base_entry, index_cycles, index_entry};
use crate::ed_instructions::{step_word, stepped, stepped_byte};
use crate::instructions::BitOp;
use crate::registers::Registers;
use crate::z80::{Machine, Step, PREFIX_IX, PREFIX_IY, Z80};
use vstd::prelude::*;

verus! {

impl Machine {
    /// The condition that the opcode field `y` names: NZ, Z, NC, C, PO, PE, P, M.
    #[verifier::opaque]
    pub open spec fn condition(self, y: u8) -> bool {
        let f = self.reg.flags;
        if y == 0 {
            !f.z
        } else if y == 1 {
            f.z
        } else if y == 2 {
            !f.c
        } else if y == 3 {
            f.c
        } else if y == 4 {
            !f.p
        } else if y == 5 {
            f.p
        } else if y == 6 {
            !f.s
        } else {
            f.s
        }
    }

    /// The register pair that the field `p` names in the base page: BC, DE, HL, SP,
    /// with IX or IY for HL under a prefix.
    #[verifier::opaque]
    pub open spec fn rp(self, p: u8) -> u16 {
        if p == 0 {
            self.reg.bc()
        } else if p == 1 {
            self.reg.de()
        } else if p == 2 {
            self.hl_sel()
        } else {
            self.reg.sp
        }
    }

    /// The state with `v` stored in the pair that `rp` names.
    #[verifier::opaque]
    pub open spec fn with_rp(self, p: u8, v: u16) -> Machine {
        if p == 0 {
            self.with_reg(self.reg.with_bc(v))
        } else if p == 1 {
            self.with_reg(self.reg.with_de(v))
        } else if p == 2 {
            self.with_hl_sel(v)
        } else {
            self.with_reg(self.reg.with_sp(v))
        }
    }

    /// The register pair that the field `p` names for PUSH and POP: BC, DE, HL, AF,
    /// with IX or IY for HL under a prefix.
    #[verifier::opaque]
    pub open spec fn rp2(self, p: u8) -> u16 {
        if p == 3 {
            self.reg.af()
        } else {
            self.rp(p)
        }
    }

    /// The state with `v` stored in the pair that `rp2` names.
    #[verifier::opaque]
    pub open spec fn with_rp2(self, p: u8, v: u16) -> Machine {
        if p == 3 {
            self.with_reg(self.reg.with_af(v))
        } else {
            self.with_rp(p, v)
        }
    }

    /// The 8-bit operand that the field `z` names: the memory operand for field 6,
    /// else the register, with H and L rewired under a prefix.
    #[verifier::opaque]
    pub open spec fn operand(self, z: u8) -> u8 {
        if z == 6 {
            self.read(self.operand_address())
        } else {
            self.r8_sel(z)
        }
    }

    /// The state once the operand that the field `z` names is read: the memory
    /// operand consumes the displacement byte under a prefix.
    #[verifier::opaque]
    pub open spec fn past_operand(self, z: u8) -> Machine {
        if z == 6 {
            self.past_displacement()
        } else {
            self
        }
    }

    /// The state after the arithmetic or logical operation that the field `y` names on
    /// A and `v`: ADD, ADC, SUB, SBC, AND, XOR, OR, CP.
    #[verifier::opaque]
    pub open spec fn alu(self, y: u8, v: u8) -> Machine {
        if y == 0 {
            self.with_reg(self.reg.add_a(v, false))
        } else if y == 1 {
            self.with_reg(self.reg.add_a(v, self.reg.flags.c))
        } else if y == 2 {
            self.with_reg(self.reg.sub_a(v, false))
        } else if y == 3 {
            self.with_reg(self.reg.sub_a(v, self.reg.flags.c))
        } else if y == 4 {
            self.with_reg(self.reg.logic_a(BitOp::AND, v))
        } else if y == 5 {
            self.with_reg(self.reg.logic_a(BitOp::XOR, v))
        } else if y == 6 {
            self.with_reg(self.reg.logic_a(BitOp::OR, v))
        } else {
            self.with_reg(self.reg.compare_a(v))
        }
    }

    /// A relative jump if `taken`, at 5 more T-states; else the displacement byte is
    /// skipped.
    #[verifier::opaque]
    pub open spec fn branch_relative(self, taken: bool) -> Step {
        if taken {
            Step { state: self.jump_relative(), cycles: 5 }
        } else {
            Step { state: self.skip(1), cycles: 0 }
        }
    }

    /// The state after EX AF,AF'.
    #[verifier::opaque]
    pub open spec fn exchanged_af(self) -> Machine {
        self.with_reg(Registers { eaf: self.reg.af(), ..self.reg.with_af(self.reg.eaf) })
    }

    /// The state after EXX: BC, DE and HL change places with their alternates.
    #[verifier::opaque]
    pub open spec fn exchanged_all(self) -> Machine {
        self.with_reg(
            Registers {
                ebc: self.reg.bc(),
                ede: self.reg.de(),
                ehl: self.reg.hl(),
                ..self.reg.with_bc(self.reg.ebc).with_de(self.reg.ede).with_hl(self.reg.ehl)
            },
        )
    }

    /// The state after EX DE,HL, which no prefix rewires.
    #[verifier::opaque]
    pub open spec fn exchanged_de_hl(self) -> Machine {
        self.with_reg(self.reg.with_de(self.reg.hl()).with_hl(self.reg.de()))
    }

    /// The state after EX (SP),HL: the word on top of the stack changes places with
    /// HL, or with IX or IY under a prefix. SP keeps its value.
    #[verifier::opaque]
    pub open spec fn exchanged_top(self) -> Machine {
        self.write_word(self.reg.sp, self.hl_sel()).with_hl_sel(self.top_word())
    }

    /// NOP, EX AF,AF', DJNZ, JR and JR cc: opcodes 00yyy000.
    #[verifier::opaque]
    pub open spec fn relative_group(self, y: u8) -> Step {
        if y == 0 {
            Step { state: self, cycles: 0 }
        } else if y == 1 {
            Step { state: self.exchanged_af(), cycles: 0 }
        } else if y == 2 {
            let b = wrap_byte(self.reg.b - 1);
            self.with_reg(Registers { b, ..self.reg }).branch_relative(b != 0)
        } else if y == 3 {
            Step { state: self.jump_relative(), cycles: 0 }
        } else {
            self.branch_relative(self.condition((y - 4) as u8))
        }
    }

    /// LD rr,nn and ADD HL,rr: opcodes 00ppq001.
    #[verifier::opaque]
    pub open spec fn word_group(self, p: u8, q: u8) -> Machine {
        if q == 0 {
            self.skip(2).with_rp(p, self.immediate_word())
        } else {
            self.add_to_hl(self.rp(p))
        }
    }

    /// Loads through (BC), (DE) and (nn): opcodes 00ppq010.
    #[verifier::opaque]
    pub open spec fn indirect_group(self, p: u8, q: u8) -> Machine {
        let nn = self.immediate_word();
        if q == 0 {
            if p == 0 {
                self.write(self.reg.bc(), self.reg.a)
            } else if p == 1 {
                self.write(self.reg.de(), self.reg.a)
            } else if p == 2 {
                self.skip(2).write_word(nn, self.hl_sel())
            } else {
                self.skip(2).write(nn, self.reg.a)
            }
        } else {
            if p == 0 {
                self.with_r8(7, self.read(self.reg.bc()))
            } else if p == 1 {
                self.with_r8(7, self.read(self.reg.de()))
            } else if p == 2 {
                self.skip(2).with_hl_sel(self.read_word(nn))
            } else {
                self.skip(2).with_r8(7, self.read(nn))
            }
        }
    }

    /// INC rr and DEC rr: opcodes 00ppq011. No flag changes.
    #[verifier::opaque]
    pub open spec fn count_group(self, p: u8, q: u8) -> Machine {
        self.with_rp(p, stepped(self.rp(p), q == 0))
    }

    /// INC r and DEC r: opcodes 00yyy100 and 00yyy101.
    #[verifier::opaque]
    pub open spec fn step_group(self, y: u8, up: bool) -> Machine {
        let v = self.operand(y);
        let fetched = self.past_operand(y);
        let m = fetched.with_flags(step_flags(fetched.reg.flags, v, up));
        if y == 6 {
            m.write(self.operand_address(), stepped_byte(v, up))
        } else {
            m.with_r8_sel(y, stepped_byte(v, up))
        }
    }

    /// LD r,n: opcodes 00yyy110. Under a prefix LD (HL),n takes the displacement
    /// before the immediate byte.
    #[verifier::opaque]
    pub open spec fn immediate_group(self, y: u8) -> Machine {
        if y == 6 {
            let m = self.past_displacement();
            m.skip(1).write(self.operand_address(), m.at_pc(1))
        } else {
            self.skip(1).with_r8_sel(y, self.at_pc(1))
        }
    }

    /// RLCA, RRCA, RLA, RRA, DAA, CPL, SCF, CCF: opcodes 00yyy111.
    #[verifier::opaque]
    pub open spec fn accumulator_group(self, y: u8) -> Machine {
        if y < 4 {
            self.with_reg(
                Registers {
                    a: shift_result(y, self.reg.a, self.reg.flags.c),
                    flags: rotate_a_flags(self.reg.flags, y, self.reg.a),
                    ..self.reg
                },
            )
        } else if y == 4 {
            self.with_reg(self.reg.decimal_adjusted())
        } else if y == 5 {
            self.with_reg(self.reg.complemented())
        } else if y == 6 {
            self.with_reg(self.reg.carry_set())
        } else {
            self.with_reg(self.reg.carry_complemented())
        }
    }

    /// The state after HALT: the halt pin is asserted and PC moves one back, so that
    /// the step ends on the HALT opcode again.
    #[verifier::opaque]
    pub open spec fn halted(self) -> Machine {
        Machine { n_halt: false, ..self.skip(-1) }
    }

    /// LD r,r' and HALT: opcodes 01yyyzzz. A load to or from the memory operand
    /// names H and L themselves even under a prefix.
    #[verifier::opaque]
    pub open spec fn load_group(self, y: u8, z: u8) -> Machine {
        if y == 6 && z == 6 {
            self.halted()
        } else if y == 6 {
            self.past_displacement().write(self.operand_address(), self.r8(z))
        } else if z == 6 {
            self.past_displacement().with_r8(y, self.read(self.operand_address()))
        } else {
            self.with_r8_sel(y, self.r8_sel(z))
        }
    }

    /// Arithmetic and logic on A with a register or memory operand: opcodes 10yyyzzz.
    #[verifier::opaque]
    pub open spec fn alu_group(self, y: u8, z: u8) -> Machine {
        self.past_operand(z).alu(y, self.operand(z))
    }

    /// RET cc: opcodes 11yyy000. A return that is taken costs 6 more T-states.
    #[verifier::opaque]
    pub open spec fn return_group(self, y: u8) -> Step {
        if self.condition(y) {
            Step { state: self.returned(), cycles: 6 }
        } else {
            Step { state: self, cycles: 0 }
        }
    }

    /// POP rr, RET, EXX, JP (HL), LD SP,HL: opcodes 11ppq001.
    #[verifier::opaque]
    pub open spec fn pop_group(self, p: u8, q: u8) -> Machine {
        if q == 0 {
            self.pop_word().with_rp2(p, self.top_word())
        } else if p == 0 {
            self.returned()
        } else if p == 1 {
            self.exchanged_all()
        } else if p == 2 {
            self.with_pc(wrap_word(self.hl_sel() - 1))
        } else {
            self.with_reg(self.reg.with_sp(self.hl_sel()))
        }
    }

    /// JP cc,nn: opcodes 11yyy010. A jump that is not taken skips its operand.
    #[verifier::opaque]
    pub open spec fn jump_group(self, y: u8) -> Machine {
        if self.condition(y) {
            self.jump()
        } else {
            self.skip(2)
        }
    }

    /// The state after IN A,(n): the port is A high, n low.
    #[verifier::opaque]
    pub open spec fn input_a(self) -> Machine {
        self.skip(1).with_r8(7, io_input(word(self.reg.a, self.at_pc(1))))
    }

    /// The state with both interrupt flip-flops set to `on`, at once.
    #[verifier::opaque]
    pub open spec fn with_interrupts(self, on: bool) -> Machine {
        Machine { iff1: on, iff2: on, ..self }
    }

    /// JP nn, the CB page, OUT (n),A, IN A,(n), EX (SP),HL, EX DE,HL, DI, EI: opcodes
    /// 11yyy011.
    #[verifier::opaque]
    pub open spec fn misc_group(self, y: u8) -> Step {
        if y == 0 {
            Step { state: self.jump(), cycles: 0 }
        } else if y == 1 {
            self.cb_step()
        } else if y == 2 {
            Step { state: self.skip(1), cycles: 0 }
        } else if y == 3 {
            Step { state: self.input_a(), cycles: 0 }
        } else if y == 4 {
            Step { state: self.exchanged_top(), cycles: 0 }
        } else if y == 5 {
            Step { state: self.exchanged_de_hl(), cycles: 0 }
        } else {
            Step { state: self.with_interrupts(y == 7), cycles: 0 }
        }
    }

    /// CALL cc,nn: opcodes 11yyy100. A call that is taken costs 7 more T-states; one
    /// that is not skips its operand.
    #[verifier::opaque]
    pub open spec fn call_group(self, y: u8) -> Step {
        if self.condition(y) {
            Step { state: self.call(), cycles: 7 }
        } else {
            Step { state: self.skip(2), cycles: 0 }
        }
    }

    /// PUSH rr, CALL nn and the ED page: opcodes 11ppq101. The bytes DD and FD do
    /// nothing here: a step handles them before it comes to the base page.
    #[verifier::opaque]
    pub open spec fn push_group(self, p: u8, q: u8) -> Step {
        if q == 0 {
            Step { state: self.push_word(self.rp2(p)), cycles: 0 }
        } else if p == 0 {
            Step { state: self.call(), cycles: 0 }
        } else if p == 2 {
            self.ed_step()
        } else {
            Step { state: self, cycles: 0 }
        }
    }

    /// Arithmetic and logic on A with an immediate operand: opcodes 11yyy110.
    #[verifier::opaque]
    pub open spec fn alu_immediate(self, y: u8) -> Machine {
        self.skip(1).alu(y, self.at_pc(1))
    }

    /// The opcodes with top bits 00, by their low three bits `z`.
    #[verifier::opaque]
    pub open spec fn quarter_0(self, y: u8, z: u8) -> Step {
        let p = y / 2;
        let q = y % 2;
        if z == 0 {
            self.relative_group(y)
        } else if z == 1 {
            Step { state: self.word_group(p, q), cycles: 0 }
        } else if z == 2 {
            Step { state: self.indirect_group(p, q), cycles: 0 }
        } else if z == 3 {
            Step { state: self.count_group(p, q), cycles: 0 }
        } else if z == 4 {
            Step { state: self.step_group(y, true), cycles: 0 }
        } else if z == 5 {
            Step { state: self.step_group(y, false), cycles: 0 }
        } else if z == 6 {
            Step { state: self.immediate_group(y), cycles: 0 }
        } else {
            Step { state: self.accumulator_group(y), cycles: 0 }
        }
    }

    /// The opcodes with top bits 11, by their low three bits `z`.
    #[verifier::opaque]
    pub open spec fn quarter_3(self, y: u8, z: u8) -> Step {
        let p = y / 2;
        let q = y % 2;
        if z == 0 {
            self.return_group(y)
        } else if z == 1 {
            Step { state: self.pop_group(p, q), cycles: 0 }
        } else if z == 2 {
            Step { state: self.jump_group(y), cycles: 0 }
        } else if z == 3 {
            self.misc_group(y)
        } else if z == 4 {
            self.call_group(y)
        } else if z == 5 {
            self.push_group(p, q)
        } else if z == 6 {
            Step { state: self.alu_immediate(y), cycles: 0 }
        } else {
            Step { state: self.restart((y * 8) as u8), cycles: 0 }
        }
    }

    /// The base-page instruction `op` with PC on its opcode byte: the state after it,
    /// with PC on its last byte, and the T-states it costs beyond its table entries.
    ///
    /// The opcode splits into the fields x (bits 7..6), y (bits 5..3) and z (bits
    /// 2..0); y further into p (bits 5..4) and q (bit 3).
    #[verifier::opaque]
    pub open spec fn base_step(self, op: u8) -> Step {
        let x = op / 64;
        let y = (op / 8) % 8;
        let z = op % 8;
        if x == 0 {
            self.quarter_0(y, z)
        } else if x == 1 {
            Step { state: self.load_group(y, z), cycles: 0 }
        } else if x == 2 {
            Step { state: self.alu_group(y, z), cycles: 0 }
        } else {
            self.quarter_3(y, z)
        }
    }

    /// Whether `op` is a prefix byte that makes a DD or FD before it a lone prefix.
    pub open spec fn voids_prefix(op: u8) -> bool {
        op == PREFIX_IX || op == PREFIX_IY || op == 0xED
    }

    /// One step of the processor: the state after the instruction at PC and the
    /// T-states it took.
    ///
    /// The prefix marker is set for the instruction: to the DD or FD byte at PC, else
    /// to zero. A DD or FD byte that another DD, FD or ED byte follows is consumed
    /// alone, as a 4 T-state instruction without effect. Otherwise the prefixed
    /// instruction runs from the base page with HL rewired, and costs its base entry
    /// plus what the prefix adds. PC ends one past the instruction's last byte.
    #[verifier::opaque]
    pub open spec fn step(self) -> Step {
        let op = self.at_pc(0);
        if op == PREFIX_IX || op == PREFIX_IY {
            let inner = self.at_pc(1);
            let m = self.with_prefix(op).skip(1);
            if Machine::voids_prefix(inner) {
                Step { state: m, cycles: base_entry(op) }
            } else {
                let s = m.base_step(inner);
                Step {
                    state: s.state.skip(1),
                    cycles: base_entry(inner) + index_entry(inner) + s.cycles,
                }
            }
        } else {
            let s = self.with_prefix(0).base_step(op);
            Step { state: s.state.skip(1), cycles: base_entry(op) + s.cycles }
        }
    }
}

impl Z80 {
    /// Whether the condition that the opcode field `y` names holds.
    fn check_condition(&self, y: u8) -> (holds: bool)
        ensures
            holds == self@.condition(y),
    {
        reveal(Machine::condition);
        match y {
            0 => !self.reg.flags.z,
            1 => self.reg.flags.z,
            2 => !self.reg.flags.c,
            3 => self.reg.flags.c,
            4 => !self.reg.flags.p,
            5 => self.reg.flags.p,
            6 => !self.reg.flags.s,
            _ => self.reg.flags.s,
        }
    }

    /// The register pair that the field `p` names: BC, DE, HL (or IX, IY), SP.
    fn get_rp(&self, p: u8) -> (v: u16)
        ensures
            v == self@.rp(p),
    {
        reveal(Machine::rp);
        match p {
            0 => self.reg.get_bc(),
            1 => self.reg.get_de(),
            2 => self.get_hl_ix_iy(),
            _ => self.reg.sp,
        }
    }

    /// Stores `v` in the register pair that the field `p` names.
    fn set_rp(&mut self, p: u8, v: u16)
        ensures
            final(self)@ == old(self)@.with_rp(p, v),
    {
        reveal(Machine::with_rp);
        match p {
            0 => self.reg.set_bc(v),
            1 => self.reg.set_de(v),
            2 => self.set_hl_ix_iy(v),
            _ => self.reg.sp = v,
        };
    }

    /// The register pair that the field `p` names for PUSH and POP.
    fn get_rp2(&self, p: u8) -> (v: u16)
        ensures
            v == self@.rp2(p),
    {
        reveal(Machine::rp2);
        if p == 3 {
            self.reg.get_af()
        } else {
            self.get_rp(p)
        }
    }

    /// Stores `v` in the register pair that the field `p` names for PUSH and POP.
    fn set_rp2(&mut self, p: u8, v: u16)
        ensures
            final(self)@ == old(self)@.with_rp2(p, v),
    {
        reveal(Machine::with_rp2);
        if p == 3 {
            self.reg.set_af(v);
        } else {
            self.set_rp(p, v);
        }
    }

    /// Reads the operand that the field `z` names.
    fn fetch_operand(&mut self, z: u8) -> (v: u8)
        ensures
            v == old(self)@.operand(z),
            final(self)@ == old(self)@.past_operand(z),
    {
        reveal(Machine::operand);
        reveal(Machine::past_operand);
        if z == 6 {
            self.read_hl_ix_iy()
        } else {
            self.get_r_sel(z)
        }
    }

    /// The byte after PC; PC moves onto it.
    fn fetch_byte(&mut self) -> (n: u8)
        ensures
            n == old(self)@.at_pc(1),
            final(self)@ == old(self)@.skip(1),
    {
        self.reg.inc_pc();
        self.bus.read(self.reg.pc)
    }

    /// The arithmetic or logical operation that the field `y` names, on A and `v`.
    fn alu_a_r(&mut self, y: u8, v: u8)
        ensures
            final(self)@ == old(self)@.alu(y, v),
    {
        reveal(Machine::alu);
        match y {
            0 => self.add_a_r(v),
            1 => self.adc_a_r(v),
            2 => self.sub_a_r(v),
            3 => self.sbc_a_r(v),
            4 => self.bit_op_a_r(BitOp::AND, v),
            5 => self.bit_op_a_r(BitOp::XOR, v),
            6 => self.bit_op_a_r(BitOp::OR, v),
            _ => self.cp_r(v),
        };
    }

    /// Jumps relative if `taken`, else skips the displacement byte; returns the
    /// T-states that the jump adds.
    fn jr_if(&mut self, taken: bool) -> (extra: u8)
        ensures
            final(self)@ == old(self)@.branch_relative(taken).state,
            extra == old(self)@.branch_relative(taken).cycles,
            extra <= 5,
    {
        reveal(Machine::branch_relative);
        if taken {
            self.jr_e();
            5
        } else {
            self.reg.inc_pc();
            0
        }
    }

    /// EX AF,AF': A and the flags change places with their alternates.
    fn ex_af(&mut self)
        ensures
            final(self)@ == old(self)@.exchanged_af(),
    {
        reveal(Machine::exchanged_af);
        let af = self.reg.get_af();
        let eaf = self.reg.eaf;
        self.reg.set_af(eaf);
        self.reg.eaf = af;
    }

    /// EXX: BC, DE and HL change places with their alternates.
    fn exx(&mut self)
        ensures
            final(self)@ == old(self)@.exchanged_all(),
    {
        reveal(Machine::exchanged_all);
        let bc = self.reg.get_bc();
        let de = self.reg.get_de();
        let hl = self.reg.get_hl();
        self.reg.set_bc(self.reg.ebc);
        self.reg.set_de(self.reg.ede);
        self.reg.set_hl(self.reg.ehl);
        self.reg.ebc = bc;
        self.reg.ede = de;
        self.reg.ehl = hl;
    }

    /// EX DE,HL.
    fn ex_de_hl(&mut self)
        ensures
            final(self)@ == old(self)@.exchanged_de_hl(),
    {
        reveal(Machine::exchanged_de_hl);
        let de = self.reg.get_de();
        let hl = self.reg.get_hl();
        self.reg.set_de(hl);
        self.reg.set_hl(de);
    }

    /// EX (SP),HL: the word on top of the stack changes places with HL, or with IX
    /// or IY under a prefix.
    fn ex_sp_hl(&mut self)
        ensures
            final(self)@ == old(self)@.exchanged_top(),
    {
        reveal(Machine::exchanged_top);
        let sp = self.reg.sp;
        let top = self.load_word(sp);
        let hl = self.get_hl_ix_iy();
        self.store_word(sp, hl);
        self.set_hl_ix_iy(top);
    }

    /// DJNZ: counts B down and jumps relative while it is not zero.
    fn djnz(&mut self) -> (extra: u8)
        ensures
            final(self)@ == old(self)@.relative_group(2).state,
            extra == old(self)@.relative_group(2).cycles,
            extra <= 5,
    {
        reveal(Machine::relative_group);
        let b = self.reg.b.wrapping_sub(1);
        self.reg.b = b;
        self.jr_if(b != 0)
    }

    /// NOP, EX AF,AF', DJNZ, JR and JR cc; returns the T-states that a taken branch adds.
    fn relative_instructions(&mut self, y: u8) -> (extra: u8)
        requires
            y < 8,
        ensures
            final(self)@ == old(self)@.relative_group(y).state,
            extra == old(self)@.relative_group(y).cycles,
            extra <= 5,
    {
        reveal(Machine::relative_group);
        match y {
            0 => 0,
            1 => {
                self.ex_af();
                0
            },
            2 => self.djnz(),
            3 => {
                self.jr_e();
                0
            },
            _ => {
                let taken = self.check_condition(y - 4);
                self.jr_if(taken)
            },
        }
    }

    /// LD rr,nn and ADD HL,rr.
    fn word_instructions(&mut self, p: u8, q: u8)
        ensures
            final(self)@ == old(self)@.word_group(p, q),
    {
        reveal(Machine::word_group);
        if q == 0 {
            let nn = self.get_nn();
            self.set_rp(p, nn);
        } else {
            let rr = self.get_rp(p);
            self.add_hl_ix_iy_rr(rr);
        }
    }

    /// LD (BC),A, LD (DE),A, LD (nn),HL, LD (nn),A.
    fn store_indirect(&mut self, p: u8)
        ensures
            final(self)@ == old(self)@.indirect_group(p, 0),
    {
        reveal(Machine::indirect_group);
        match p {
            0 => {
                let addr = self.reg.get_bc();
                self.bus.write(addr, self.reg.a);
            },
            1 => {
                let addr = self.reg.get_de();
                self.bus.write(addr, self.reg.a);
            },
            2 => {
                let hl = self.get_hl_ix_iy();
                let nn = self.get_nn();
                self.store_word(nn, hl);
            },
            _ => {
                let nn = self.get_nn();
                self.bus.write(nn, self.reg.a);
            },
        };
    }

    /// LD A,(BC), LD A,(DE), LD HL,(nn), LD A,(nn).
    fn load_indirect(&mut self, p: u8)
        ensures
            final(self)@ == old(self)@.indirect_group(p, 1),
    {
        reveal(Machine::with_r8);
        reveal(Machine::indirect_group);
        match p {
            0 => {
                let v = self.bus.read(self.reg.get_bc());
                self.set_r(7, v);
            },
            1 => {
                let v = self.bus.read(self.reg.get_de());
                self.set_r(7, v);
            },
            2 => {
                let nn = self.get_nn();
                let v = self.load_word(nn);
                self.set_hl_ix_iy(v);
            },
            _ => {
                let nn = self.get_nn();
                let v = self.bus.read(nn);
                self.set_r(7, v);
            },
        };
    }

    /// INC rr and DEC rr.
    fn count_instructions(&mut self, p: u8, q: u8)
        ensures
            final(self)@ == old(self)@.count_group(p, q),
    {
        reveal(Machine::count_group);
        let rr = self.get_rp(p);
        self.set_rp(p, step_word(rr, q == 0));
    }

    /// Moves `v` one up or one down and sets the flags of INC or DEC.
    fn step_r(&mut self, v: u8, up: bool) -> (r: u8)
        ensures
            r == stepped_byte(v, up),
            final(self)@ == old(self)@.with_flags(step_flags(old(self).reg.flags, v, up)),
    {
        reveal(Machine::with_flags);
        if up {
            self.inc_r(v)
        } else {
            self.dec_r(v)
        }
    }

    /// INC (HL) and DEC (HL), or the indexed forms under a prefix.
    fn step_memory(&mut self, up: bool)
        ensures
            final(self)@ == old(self)@.step_group(6, up),
    {
        reveal(Machine::past_displacement);
        reveal(Machine::operand);
        reveal(Machine::past_operand);
        reveal(Machine::step_group);
        let addr = self.hl_ix_iy_address();
        let v = self.bus.read(addr);
        let r = self.step_r(v, up);
        self.bus.write(addr, r);
    }

    /// INC r and DEC r on a register.
    fn step_register(&mut self, y: u8, up: bool)
        requires
            y != 6,
        ensures
            final(self)@ == old(self)@.step_group(y, up),
    {
        reveal(Machine::operand);
        reveal(Machine::past_operand);
        reveal(Machine::step_group);
        let v = self.get_r_sel(y);
        let r = self.step_r(v, up);
        self.set_r_sel(y, r);
    }

    /// INC r and DEC r, the memory operand included.
    fn step_instructions(&mut self, y: u8, up: bool)
        ensures
            final(self)@ == old(self)@.step_group(y, up),
    {
        reveal(Machine::step_group);
        if y == 6 {
            self.step_memory(up);
        } else {
            self.step_register(y, up);
        }
    }

    /// LD r,n, the memory operand included.
    fn immediate_instructions(&mut self, y: u8)
        ensures
            final(self)@ == old(self)@.immediate_group(y),
    {
        reveal(Machine::immediate_group);
        if y == 6 {
            let addr = self.hl_ix_iy_address();
            let n = self.fetch_byte();
            self.bus.write(addr, n);
        } else {
            let n = self.fetch_byte();
            self.set_r_sel(y, n);
        }
    }

    /// RLCA, RRCA, RLA, RRA.
    fn rotate_a(&mut self, y: u8)
        requires
            y < 4,
        ensures
            final(self)@ == old(self)@.accumulator_group(y),
    {
        reveal(Machine::accumulator_group);
        let a = self.reg.a;
        let r = shift(y, a, self.reg.flags.c);
        self.reg.flags.h = false;
        self.reg.flags.n = false;
        self.reg.flags.c = if y % 2 == 0 {
            a >= 0x80
        } else {
            a % 2 == 1
        };
        self.reg.flags.set_xy(r);
        self.reg.a = r;
    }

    /// RLCA, RRCA, RLA, RRA, DAA, CPL, SCF and CCF.
    fn accumulator_instructions(&mut self, y: u8)
        ensures
            final(self)@ == old(self)@.accumulator_group(y),
    {
        reveal(Machine::accumulator_group);
        match y {
            0 | 1 | 2 | 3 => self.rotate_a(y),
            4 => self.daa(),
            5 => self.cpl(),
            6 => self.scf(),
            _ => self.ccf(),
        };
    }

    /// HALT: asserts the halt pin and holds PC on the opcode.
    fn halt(&mut self)
        ensures
            final(self)@ == old(self)@.halted(),
    {
        reveal(Machine::halted);
        self.reg.dec_pc();
        self.n_halt = false;
    }

    /// LD r,r' and HALT.
    fn load_instructions(&mut self, y: u8, z: u8)
        ensures
            final(self)@ == old(self)@.load_group(y, z),
    {
        reveal(Machine::load_group);
        if y == 6 && z == 6 {
            self.halt();
        } else if y == 6 {
            let v = self.get_r(z);
            self.write_hl_ix_iy(v);
        } else if z == 6 {
            let v = self.read_hl_ix_iy();
            self.set_r(y, v);
        } else {
            let v = self.get_r_sel(z);
            self.set_r_sel(y, v);
        }
    }

    /// Arithmetic and logic on A with a register or memory operand.
    fn alu_instructions(&mut self, y: u8, z: u8)
        ensures
            final(self)@ == old(self)@.alu_group(y, z),
    {
        reveal(Machine::alu_group);
        let v = self.fetch_operand(z);
        self.alu_a_r(y, v);
    }

    /// RET cc; returns the T-states that a taken return adds.
    fn return_instructions(&mut self, y: u8) -> (extra: u8)
        ensures
            final(self)@ == old(self)@.return_group(y).state,
            extra == old(self)@.return_group(y).cycles,
            extra <= 6,
    {
        reveal(Machine::return_group);
        if self.check_condition(y) {
            self.ret();
            6
        } else {
            0
        }
    }

    /// JP (HL): PC is left one short of HL, or of IX or IY under a prefix.
    fn jp_hl(&mut self)
        ensures
            final(self)@ == old(self)@.with_pc(wrap_word(old(self)@.hl_sel() - 1)),
    {
        self.reg.pc = self.get_hl_ix_iy().wrapping_sub(1);
    }

    /// LD SP,HL, or LD SP,IX and LD SP,IY under a prefix.
    fn ld_sp_hl(&mut self)
        ensures
            final(self)@ == old(self)@.with_reg(old(self).reg.with_sp(old(self)@.hl_sel())),
    {
        self.reg.sp = self.get_hl_ix_iy();
    }

    /// POP rr, RET, EXX, JP (HL) and LD SP,HL.
    fn pop_instructions(&mut self, p: u8, q: u8)
        ensures
            final(self)@ == old(self)@.pop_group(p, q),
    {
        reveal(Machine::pop_group);
        if q == 0 {
            let v = self.pop();
            self.set_rp2(p, v);
        } else {
            match p {
                0 => self.ret(),
                1 => self.exx(),
                2 => self.jp_hl(),
                _ => self.ld_sp_hl(),
            };
        }
    }

    /// JP cc,nn.
    fn jump_instructions(&mut self, y: u8)
        ensures
            final(self)@ == old(self)@.jump_group(y),
    {
        reveal(Machine::jump_group);
        if self.check_condition(y) {
            self.jp_nn();
        } else {
            self.forward_pc(2);
        }
    }

    /// IN A,(n): reads the port with A as high and n as low address byte.
    fn in_a_n(&mut self)
        ensures
            final(self)@ == old(self)@.input_a(),
    {
        reveal(Machine::input_a);
        let a = self.reg.a;
        let n = self.fetch_byte();
        let data = read_io(make_word(a, n));
        self.set_r(7, data);
    }

    /// OUT (n),A: writes A to the port with A as high and n as low address byte.
    fn out_n_a(&mut self)
        ensures
            final(self)@ == old(self)@.skip(1),
    {
        let n = self.fetch_byte();
        write_io(make_word(self.reg.a, n), self.reg.a);
    }

    /// DI and EI: both flip-flops change at once.
    fn set_interrupts(&mut self, on: bool)
        ensures
            final(self)@ == old(self)@.with_interrupts(on),
    {
        reveal(Machine::with_interrupts);
        self.iff1 = on;
        self.iff2 = on;
    }

    /// JP nn, the CB page, OUT (n),A, IN A,(n), EX (SP),HL, EX DE,HL, DI and EI;
    /// returns the T-states of a CB-page instruction.
    fn misc_instructions(&mut self, y: u8) -> (extra: u8)
        ensures
            final(self)@ == old(self)@.misc_group(y).state,
            extra == old(self)@.misc_group(y).cycles,
            extra <= 30,
    {
        reveal(Machine::misc_group);
        match y {
            0 => {
                self.jp_nn();
                0
            },
            1 => self.cb_instructions(),
            2 => {
                self.out_n_a();
                0
            },
            3 => {
                self.in_a_n();
                0
            },
            4 => {
                self.ex_sp_hl();
                0
            },
            5 => {
                self.ex_de_hl();
                0
            },
            _ => {
                self.set_interrupts(y == 7);
                0
            },
        }
    }

    /// CALL cc,nn; returns the T-states that a taken call adds.
    fn call_instructions(&mut self, y: u8) -> (extra: u8)
        ensures
            final(self)@ == old(self)@.call_group(y).state,
            extra == old(self)@.call_group(y).cycles,
            extra <= 7,
    {
        reveal(Machine::call_group);
        if self.check_condition(y) {
            self.call_nn();
            7
        } else {
            self.forward_pc(2);
            0
        }
    }

    /// PUSH rr, CALL nn and the ED page; returns the T-states of an ED-page
    /// instruction.
    fn push_instructions(&mut self, p: u8, q: u8) -> (extra: u8)
        ensures
            final(self)@ == old(self)@.push_group(p, q).state,
            extra == old(self)@.push_group(p, q).cycles,
            extra <= 21,
    {
        reveal(Machine::push_group);
        if q == 0 {
            let v = self.get_rp2(p);
            self.push(v);
            0
        } else if p == 0 {
            self.call_nn();
            0
        } else if p == 2 {
            self.ed_instructions()
        } else {
            0
        }
    }

    /// Arithmetic and logic on A with an immediate operand.
    fn alu_immediate_instructions(&mut self, y: u8)
        ensures
            final(self)@ == old(self)@.alu_immediate(y),
    {
        reveal(Machine::alu_immediate);
        let n = self.fetch_byte();
        self.alu_a_r(y, n);
    }

    /// The opcodes with top bits 00.
    fn quarter_0_instructions(&mut self, y: u8, z: u8) -> (extra: u8)
        requires
            y < 8,
        ensures
            final(self)@ == old(self)@.quarter_0(y, z).state,
            extra == old(self)@.quarter_0(y, z).cycles,
            extra <= 5,
    {
        reveal(Machine::quarter_0);
        let p = y / 2;
        let q = y % 2;
        match z {
            0 => self.relative_instructions(y),
            1 => {
                self.word_instructions(p, q);
                0
            },
            2 => {
                if q == 0 {
                    self.store_indirect(p);
                } else {
                    self.load_indirect(p);
                }
                0
            },
            3 => {
                self.count_instructions(p, q);
                0
            },
            4 => {
                self.step_instructions(y, true);
                0
            },
            5 => {
                self.step_instructions(y, false);
                0
            },
            6 => {
                self.immediate_instructions(y);
                0
            },
            _ => {
                self.accumulator_instructions(y);
                0
            },
        }
    }

    /// The opcodes with top bits 11.
    fn quarter_3_instructions(&mut self, y: u8, z: u8) -> (extra: u8)
        requires
            y < 8,
        ensures
            final(self)@ == old(self)@.quarter_3(y, z).state,
            extra == old(self)@.quarter_3(y, z).cycles,
            extra <= 30,
    {
        reveal(Machine::quarter_3);
        let p = y / 2;
        let q = y % 2;
        match z {
            0 => self.return_instructions(y),
            1 => {
                self.pop_instructions(p, q);
                0
            },
            2 => {
                self.jump_instructions(y);
                0
            },
            3 => self.misc_instructions(y),
            4 => self.call_instructions(y),
            5 => self.push_instructions(p, q),
            6 => {
                self.alu_immediate_instructions(y);
                0
            },
            _ => {
                self.rst(y * 8);
                0
            },
        }
    }

    /// Sets the prefix marker.
    fn set_prefix(&mut self, p_inst: u8)
        ensures
            final(self)@ == old(self)@.with_prefix(p_inst),
    {
        self.p_inst = p_inst;
    }

    /// Executes the base-page instruction `op` with PC on its opcode byte, under the
    /// prefix marker as it stands; returns the T-states beyond the table entries.
    fn base_instructions(&mut self, op: u8) -> (extra: u8)
        ensures
            final(self)@ == old(self)@.base_step(op).state,
            extra == old(self)@.base_step(op).cycles,
            extra <= 30,
    {
        reveal(Machine::base_step);
        let x = op / 64;
        let y = (op / 8) % 8;
        let z = op % 8;
        match x {
            0 => self.quarter_0_instructions(y, z),
            1 => {
                self.load_instructions(y, z);
                0
            },
            2 => {
                self.alu_instructions(y, z);
                0
            },
            _ => self.quarter_3_instructions(y, z),
        }
    }

    /// Executes the instruction at PC, prefixes included, and returns the T-states it
    /// took.
    ///
    /// Interrupts are enabled and disabled at once by EI and DI, without the
    /// one-instruction delay of the hardware.
    pub fn execute(&mut self) -> (cycles: u8)
        ensures
            final(self)@ == old(self)@.step().state,
            cycles == old(self)@.step().cycles,
            final(self)@.wf(),
    {
        reveal(Machine::step);
        let instr = self.bus.read(self.reg.pc);
        let cycles = if instr == PREFIX_IX || instr == PREFIX_IY {
            self.set_prefix(instr);
            let inner = self.fetch_byte();
            if inner == PREFIX_IX || inner == PREFIX_IY || inner == 0xED {
                base_cycles(instr)
            } else {
                let extra = self.base_instructions(inner);
                self.forward_pc(1);
                base_cycles(inner) + index_cycles(inner) + extra
            }
        } else {
            self.set_prefix(0);
            let extra = self.base_instructions(instr);
            self.forward_pc(1);
            base_cycles(instr) + extra
        };
        proof {
            use_type_invariant(&self.bus);
        }
        cycles
    }
}

} // verus!
