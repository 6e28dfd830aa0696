use crate::alu::{
    bit_flags, bit_mask, carry_in, neg_flags, shift_flags, shift_result, sub_flags, sub_result,
    with_xy,
};
use crate::arith::{even_parity, signed, wrap_byte, wrap_word};
use crate::cycles::{base_entry, ed_entry, index_entry};
use crate::flags::Flags;
use crate::instructions::{logic_result, BitOp};
use crate::registers::{lemma_get_set_identity, lemma_set_get_identity, Registers};
use crate::z80::{Machine, Step, PREFIX_IX, PREFIX_IY};
use vstd::prelude::*;

verus! {

impl Machine {
    /// The state after `n` steps.
    pub open spec fn run(self, n: nat) -> Machine
        decreases n,
    {
        if n == 0 {
            self
        } else {
            self.step().state.run((n - 1) as nat)
        }
    }
}

/// After any step PC, SP, IX and IY lie within 0..=0xFFFF.
pub proof fn lemma_step_keeps_registers_in_range(m: Machine)
    ensures
        0 <= m.step().state.reg.pc <= 0xFFFF,
        0 <= m.step().state.reg.sp <= 0xFFFF,
        0 <= m.step().state.reg.ix() <= 0xFFFF,
        0 <= m.step().state.reg.iy() <= 0xFFFF,
{
}

/// Resetting twice is the same as resetting once.
pub proof fn lemma_reset_is_idempotent(m: Machine)
    ensures
        m.reset().reset() == m.reset(),
{
}

/// DJNZ that finds B equal to 1 counts it down to zero and does not branch: PC moves
/// past the two bytes of the instruction, nothing else changes, and the step takes
/// the 8 T-states of a jump not taken.
pub proof fn lemma_djnz_last_round(m: Machine)
    requires
        m.at_pc(0) == 0x10,
        m.reg.b == 1,
    ensures
        m.step().state == (Machine {
            reg: Registers { b: 0, pc: wrap_word(m.reg.pc + 2), ..m.reg },
            p_inst: 0,
            ..m
        }),
        m.step().cycles == 8,
{
    reveal(Machine::step);
    reveal(Machine::base_step);
    reveal(Machine::quarter_0);
    reveal(Machine::relative_group);
    reveal(Machine::branch_relative);
    reveal(base_entry);
}

/// A step on a HALT opcode leaves PC on that opcode, asserts the halt pin, and
/// changes nothing else but the prefix marker, which it clears.
pub proof fn lemma_halt_step(m: Machine)
    requires
        m.at_pc(0) == 0x76,
    ensures
        m.step().state == (Machine { n_halt: false, p_inst: 0, ..m }),
        m.step().cycles == 4,
{
    reveal(Machine::step);
    reveal(Machine::base_step);
    reveal(Machine::load_group);
    reveal(Machine::halted);
    reveal(base_entry);
}

/// Once on a HALT opcode, the processor stays there: after any number of steps PC
/// is still on the opcode and the halt pin is asserted, and every step after the
/// first changes nothing at all.
pub proof fn lemma_halt_holds(m: Machine, n: nat)
    requires
        m.at_pc(0) == 0x76,
        n >= 1,
    ensures
        m.run(n) == m.step().state,
        m.run(n).reg.pc == m.reg.pc,
        !m.run(n).n_halt,
    decreases n,
{
    lemma_halt_step(m);
    let halted = m.step().state;
    lemma_halt_step(halted);
    assert(halted.step().state == halted);
    if n == 1 {
        assert(m.run(1) == m.step().state.run(0));
    } else {
        lemma_halt_holds(halted, (n - 1) as nat);
        assert(m.run(n) == halted.run((n - 1) as nat));
    }
}

/// A step on an opcode that is no DD or FD prefix runs the opcode from the base
/// page without a prefix in effect, moves PC past its last byte, and costs its
/// base entry plus what the instruction adds.
pub proof fn lemma_step_without_prefix(m: Machine)
    requires
        m.at_pc(0) != PREFIX_IX,
        m.at_pc(0) != PREFIX_IY,
    ensures
        m.step().state == m.with_prefix(0).base_step(m.at_pc(0)).state.skip(1),
        m.step().cycles == base_entry(m.at_pc(0)) + m.with_prefix(0).base_step(
            m.at_pc(0),
        ).cycles,
{
    reveal(Machine::step);
}

/// The base-page opcode ED hands over to the ED page.
pub proof fn lemma_base_step_ed(m: Machine)
    ensures
        m.base_step(0xED) == m.ed_step(),
{
    reveal(Machine::base_step);
    reveal(Machine::quarter_3);
    reveal(Machine::push_group);
}

/// One block load moving up, seen register by register.
pub proof fn lemma_block_loaded_up(m: Machine)
    ensures
        m.block_loaded(true).mem == m.mem.update(m.reg.de() as int, m.read(m.reg.hl())),
        m.block_loaded(true).reg.bc() == wrap_word(m.reg.bc() - 1),
        m.block_loaded(true).reg.hl() == wrap_word(m.reg.hl() + 1),
        m.block_loaded(true).reg.de() == wrap_word(m.reg.de() + 1),
        m.block_loaded(true).reg.pc == m.reg.pc,
        m.block_loaded(true).reg.flags.p == (m.reg.bc() != 1),
{
    reveal(Machine::block_loaded);
}

/// Setting PC and then moving it is setting it to the moved value.
proof fn lemma_set_then_skip(m: Machine, target: int, offset: int)
    ensures
        m.with_pc(wrap_word(target)).skip(offset) == m.with_pc(wrap_word(target + offset)),
{
    assert((target % 0x10000 + offset) % 0x10000 == (target + offset) % 0x10000) by {
        let q = target / 0x10000;
        assert(target % 0x10000 == target - q * 0x10000);
        assert((target + offset - q * 0x10000) % 0x10000 == (target + offset) % 0x10000);
    }
}

/// JP nn puts the immediate word in PC and changes nothing else but the prefix
/// marker, in 10 T-states.
pub proof fn lemma_jump_step(m: Machine)
    requires
        m.at_pc(0) == 0xC3,
    ensures
        m.step().state == m.with_prefix(0).with_pc(m.immediate_word()),
        m.step().cycles == 10,
{
    let m0 = m.with_prefix(0);
    lemma_step_without_prefix(m);
    assert(m0.base_step(0xC3) == (Step { state: m0.jump(), cycles: 0 })) by {
        reveal(Machine::base_step);
        reveal(Machine::quarter_3);
        reveal(Machine::misc_group);
    }
    assert(m0.jump().skip(1) == m0.with_pc(m.immediate_word())) by {
        reveal(Machine::jump);
        lemma_set_then_skip(m0, m.immediate_word() - 1, 1);
    }
    assert(base_entry(0xC3) == 10) by {
        reveal(base_entry);
    }
}

/// JR e moves PC to the address after the instruction, displaced by the signed
/// byte e, and changes nothing else but the prefix marker, in 12 T-states.
pub proof fn lemma_relative_jump_step(m: Machine)
    requires
        m.at_pc(0) == 0x18,
    ensures
        m.step().state == m.with_prefix(0).with_pc(wrap_word(m.reg.pc + 2 + signed(m.at_pc(1)))),
        m.step().cycles == 12,
{
    let m0 = m.with_prefix(0);
    lemma_step_without_prefix(m);
    assert(m0.base_step(0x18) == (Step { state: m0.jump_relative(), cycles: 0 })) by {
        reveal(Machine::base_step);
        reveal(Machine::quarter_0);
        reveal(Machine::relative_group);
    }
    assert(m0.jump_relative().skip(1) == m0.with_pc(
        wrap_word(m.reg.pc + 2 + signed(m.at_pc(1))),
    )) by {
        reveal(Machine::jump_relative);
        let e = signed(m.at_pc(1));
        let pc = m.reg.pc as int;
        assert(wrap_word(wrap_word(pc + 1) + e) == wrap_word(pc + 1 + e)) by {
            let q = (pc + 1) / 0x10000;
            assert((pc + 1) % 0x10000 == pc + 1 - q * 0x10000);
            assert((pc + 1 + e - q * 0x10000) % 0x10000 == (pc + 1 + e) % 0x10000);
        }
        lemma_set_then_skip(m0, pc + 1 + e, 1);
    }
    assert(base_entry(0x18) == 12) by {
        reveal(base_entry);
    }
}

/// CALL nn pushes the address of the instruction after it and puts the immediate
/// word in PC, in 17 T-states.
pub proof fn lemma_call_step(m: Machine)
    requires
        m.at_pc(0) == 0xCD,
    ensures
        m.step().state == m.with_prefix(0).push_word(wrap_word(m.reg.pc + 3)).with_pc(
            m.immediate_word(),
        ),
        m.step().cycles == 17,
{
    let m0 = m.with_prefix(0);
    lemma_step_without_prefix(m);
    assert(m0.base_step(0xCD) == (Step { state: m0.call(), cycles: 0 })) by {
        reveal(Machine::base_step);
        reveal(Machine::quarter_3);
        reveal(Machine::push_group);
    }
    assert(m0.call().skip(1) == m0.push_word(wrap_word(m.reg.pc + 3)).with_pc(
        m.immediate_word(),
    )) by {
        reveal(Machine::call);
        lemma_set_then_skip(
            m0.push_word(wrap_word(m.reg.pc + 3)),
            m.immediate_word() - 1,
            1,
        );
    }
    assert(base_entry(0xCD) == 17) by {
        reveal(base_entry);
    }
}

/// RET pops the word on top of the stack into PC, in 10 T-states.
pub proof fn lemma_return_step(m: Machine)
    requires
        m.at_pc(0) == 0xC9,
    ensures
        m.step().state == m.with_prefix(0).pop_word().with_pc(m.top_word()),
        m.step().cycles == 10,
{
    let m0 = m.with_prefix(0);
    lemma_step_without_prefix(m);
    assert(m0.base_step(0xC9) == (Step { state: m0.returned(), cycles: 0 })) by {
        reveal(Machine::base_step);
        reveal(Machine::quarter_3);
        reveal(Machine::pop_group);
    }
    assert(m0.returned().skip(1) == m0.pop_word().with_pc(m.top_word())) by {
        reveal(Machine::returned);
        lemma_set_then_skip(m0.pop_word(), m.top_word() - 1, 1);
    }
    assert(base_entry(0xC9) == 10) by {
        reveal(base_entry);
    }
}

/// What PUSH leaves on the stack, POP finds there: in a memory that covers the
/// address space, the word on top of the stack after a push is the word pushed,
/// and dropping it restores SP.
pub proof fn lemma_push_then_pop(m: Machine, v: u16)
    requires
        m.wf(),
    ensures
        m.push_word(v).top_word() == v,
        m.push_word(v).pop_word().reg.sp == m.reg.sp,
        m.push_word(v).pop_word().reg == m.reg,
{
    reveal(Machine::push_word);
    reveal(Machine::pop_word);
    let sp = m.reg.sp as int;
    let sp1 = wrap_word(sp - 1);
    let sp2 = wrap_word(sp - 2);
    assert(wrap_word(sp2 + 1) == sp1);
    assert(wrap_word(sp2 + 2) == m.reg.sp);
    assert(sp1 != sp2);
}

/// A subroutine that returns at once: after CALL nn to a RET, two steps later PC is
/// on the instruction after the call and SP is what it was. The RET must not lie
/// in the two stack cells that the call overwrites.
pub proof fn lemma_call_then_return(m: Machine)
    requires
        m.wf(),
        m.at_pc(0) == 0xCD,
        m.read(m.immediate_word()) == 0xC9,
        m.immediate_word() != wrap_word(m.reg.sp - 1),
        m.immediate_word() != wrap_word(m.reg.sp - 2),
    ensures
        m.run(2).reg.pc == wrap_word(m.reg.pc + 3),
        m.run(2).reg.sp == m.reg.sp,
{
    let m0 = m.with_prefix(0);
    let back = wrap_word(m.reg.pc + 3);
    let called = m0.push_word(back).with_pc(m.immediate_word());
    lemma_call_step(m);
    lemma_push_then_pop(m0, back);
    assert(called.at_pc(0) == 0xC9) by {
        reveal(Machine::push_word);
    }
    assert(called.top_word() == back && called.pop_word().reg.sp == m.reg.sp) by {
        reveal(Machine::push_word);
        reveal(Machine::pop_word);
    }
    assert(called.with_prefix(0) == called) by {
        reveal(Machine::push_word);
    }
    lemma_return_step(called);
    let returned = called.pop_word().with_pc(back);
    assert(called.step().state == returned);
    assert(returned.reg.sp == m.reg.sp && returned.reg.pc == back);
    assert(m.run(2) == returned) by {
        assert(m.run(2) == m.step().state.run(1));
        assert(called.run(1) == called.step().state.run(0));
    }
}

/// Each exchange undoes itself: EX AF,AF', EXX and EX DE,HL done twice leave the
/// state as it was.
pub proof fn lemma_exchange_twice(m: Machine)
    ensures
        m.exchanged_af().exchanged_af() == m,
        m.exchanged_all().exchanged_all() == m,
        m.exchanged_de_hl().exchanged_de_hl() == m,
{
    reveal(Machine::exchanged_af);
    reveal(Machine::exchanged_all);
    reveal(Machine::exchanged_de_hl);
    lemma_set_get_identity(m.reg);
    lemma_get_set_identity(m.reg, m.reg.eaf);
}

/// Moving PC twice is moving it once by the sum.
pub proof fn lemma_skip_twice(m: Machine, a: int, b: int)
    ensures
        m.skip(a).skip(b) == m.skip(a + b),
{
    let pc = m.reg.pc as int;
    assert(((pc + a) % 0x10000 + b) % 0x10000 == (pc + a + b) % 0x10000) by {
        let q = (pc + a) / 0x10000;
        assert((pc + a) % 0x10000 == pc + a - q * 0x10000);
        assert((pc + a + b - q * 0x10000) % 0x10000 == (pc + a + b) % 0x10000);
    }
}

/// LDIR that runs again, as the ED page sees it with PC on the ED byte: one block
/// load, then PC two bytes back from the opcode, at 5 T-states over the entry.
proof fn lemma_ed_ldir(m: Machine)
    requires
        m.at_pc(1) == 0xB0,
        m.reg.bc() != 1,
    ensures
        m.ed_step().state == m.skip(1).block_loaded(true).skip(-2),
        m.ed_step().cycles == ed_entry(0xB0) + 5,
{
    reveal(Machine::ed_step);
    reveal(Machine::block_op);
    reveal(Machine::block_stepped);
    lemma_block_load_repeats(m.skip(1), true);
}

/// LDIR that finds BC equal to zero moves exactly one byte in its step, from HL to
/// DE, and counts BC down to 0xFFFF. As BC is not zero then, PC stays on the
/// instruction, and the step takes the 21 T-states of a transfer that repeats.
pub proof fn lemma_ldir_from_zero(m: Machine)
    requires
        m.at_pc(0) == 0xED,
        m.at_pc(1) == 0xB0,
        m.reg.bc() == 0,
    ensures
        m.step().state.mem == m.mem.update(m.reg.de() as int, m.read(m.reg.hl())),
        m.step().state.reg.bc() == 0xFFFF,
        m.step().state.reg.hl() == wrap_word(m.reg.hl() + 1),
        m.step().state.reg.de() == wrap_word(m.reg.de() + 1),
        m.step().state.reg.pc == m.reg.pc,
        m.step().cycles == 21,
{
    let m0 = m.with_prefix(0);
    let m1 = m0.skip(1);
    let after = m1.block_loaded(true);
    lemma_step_without_prefix(m);
    lemma_base_step_ed(m0);
    lemma_ed_ldir(m0);
    lemma_block_loaded_up(m1);
    lemma_skip_twice(after, -2, 1);
    assert(m.step().state == after.skip(-1));
    assert(base_entry(0xED) == 4 && ed_entry(0xB0) == 12) by {
        reveal(base_entry);
        reveal(ed_entry);
    }
}

impl Machine {
    /// Whether the ED-page instruction whose ED byte PC is on is a repeating block
    /// instruction that runs again: LDIR and LDDR unless BC is 1, CPIR and CPDR unless
    /// BC is 1 or A equals the byte at HL, INIR, INDR, OTIR and OTDR unless B is 1.
    pub open spec fn block_runs_again(self) -> bool {
        let opcode = self.at_pc(1);
        if opcode == 0xB0 || opcode == 0xB8 {
            self.reg.bc() != 1
        } else if opcode == 0xB1 || opcode == 0xB9 {
            self.reg.bc() != 1 && self.reg.a != self.read(self.reg.hl())
        } else if opcode == 0xB2 || opcode == 0xBA || opcode == 0xB3 || opcode == 0xBB {
            self.reg.b != 1
        } else {
            false
        }
    }

    /// The T-states that the base-page opcode `op` costs beyond its table entries,
    /// with PC on the opcode: for CB the entry of the CB page and what a prefix adds
    /// to it; for ED the entry of the ED page, and 5 when a block instruction runs
    /// again; 5 for DJNZ unless B is 1 and for a JR cc that is taken; 6 for a RET cc
    /// and 7 for a CALL cc that is taken.
    pub open spec fn added_cycles(self, op: u8) -> int {
        let y = (op / 8) % 8;
        if op == 0xCB {
            self.cb_cycles(self.cb_opcode())
        } else if op == 0xED {
            ed_entry(self.at_pc(1)) + (if self.block_runs_again() {
                5int
            } else {
                0int
            })
        } else if op == 0x10 {
            if self.reg.b != 1 {
                5
            } else {
                0
            }
        } else if op == 0x20 || op == 0x28 || op == 0x30 || op == 0x38 {
            if self.condition((y - 4) as u8) {
                5
            } else {
                0
            }
        } else if op / 64 == 3 && op % 8 == 0 {
            if self.condition(y) {
                6
            } else {
                0
            }
        } else if op / 64 == 3 && op % 8 == 4 {
            if self.condition(y) {
                7
            } else {
                0
            }
        } else {
            0
        }
    }

    /// The T-states of the instruction at PC, from the tables: for an instruction
    /// without a DD or FD prefix its base entry and what it adds; for a prefixed one
    /// the base entry of the opcode after the prefix, what the prefix adds to that
    /// entry, and what the instruction adds; for a prefix that another prefix
    /// follows the base entry of the prefix alone.
    pub open spec fn documented_cycles(self) -> int {
        let op = self.at_pc(0);
        if op == PREFIX_IX || op == PREFIX_IY {
            let inner = self.at_pc(1);
            if Machine::voids_prefix(inner) {
                base_entry(op)
            } else {
                base_entry(inner) + index_entry(inner) + self.with_prefix(op).skip(
                    1,
                ).added_cycles(inner)
            }
        } else {
            base_entry(op) + self.with_prefix(0).added_cycles(op)
        }
    }
}

/// A block load leaves P/V set unless it counted BC down to zero.
proof fn lemma_block_load_repeats(m: Machine, up: bool)
    ensures
        m.block_loaded(up).reg.flags.p == (m.reg.bc() != 1),
{
    reveal(Machine::block_loaded);
}

/// A block compare leaves P/V set unless it counted BC down to zero, and Z set when
/// A equals the byte at HL.
proof fn lemma_block_compare_repeats(m: Machine, up: bool)
    ensures
        m.block_compared(up).reg.flags.p == (m.reg.bc() != 1),
        m.block_compared(up).reg.flags.z == (m.reg.a == m.read(m.reg.hl())),
{
    reveal(Machine::block_compared);
}

/// A block input or output leaves Z set when it counted B down to zero.
proof fn lemma_block_io_repeats(m: Machine, up: bool)
    ensures
        m.block_input(up).reg.flags.z == (m.reg.b == 1),
        m.block_output(up).reg.flags.z == (m.reg.b == 1),
{
    reveal(Machine::block_input);
    reveal(Machine::block_output);
    reveal(Machine::block_counted);
}

/// What one block step leaves in the flags that decide whether a repeating block
/// instruction runs again.
proof fn lemma_block_repeats(m: Machine, z: u8, up: bool)
    requires
        z <= 3,
    ensures
        m.block_stepped(z, up).block_repeats(z) == (if z == 0 {
            m.reg.bc() != 1
        } else if z == 1 {
            m.reg.bc() != 1 && m.reg.a != m.read(m.reg.hl())
        } else {
            m.reg.b != 1
        }),
{
    reveal(Machine::block_stepped);
    lemma_block_load_repeats(m, up);
    lemma_block_compare_repeats(m, up);
    lemma_block_io_repeats(m, up);
}

/// The T-states of an ED-page instruction are its table entry, and 5 more when a
/// block instruction runs again.
proof fn lemma_ed_cycles(m: Machine)
    ensures
        m.ed_step().cycles == ed_entry(m.at_pc(1)) + (if m.block_runs_again() {
            5int
        } else {
            0int
        }),
{
    reveal(Machine::ed_step);
    reveal(Machine::block_op);
    let opcode = m.at_pc(1);
    let y = (opcode / 8) % 8;
    let z = opcode % 8;
    if opcode / 64 == 2 && y >= 4 && z <= 3 {
        lemma_block_repeats(m.skip(1), z, y % 2 == 0);
    }
}

/// What a base-page instruction costs beyond its table entries.
proof fn lemma_added_cycles(m: Machine, op: u8)
    ensures
        m.base_step(op).cycles == m.added_cycles(op),
{
    reveal(Machine::base_step);
    let x = op / 64;
    let y = (op / 8) % 8;
    let z = op % 8;
    if x == 0 {
        reveal(Machine::quarter_0);
        reveal(Machine::relative_group);
        reveal(Machine::branch_relative);
    } else if x == 3 {
        reveal(Machine::quarter_3);
        reveal(Machine::return_group);
        reveal(Machine::call_group);
        reveal(Machine::misc_group);
        reveal(Machine::push_group);
        reveal(Machine::cb_step);
        if op == 0xED {
            lemma_ed_cycles(m);
        }
    }
}

/// Every step takes the T-states that the tables give for the instruction at PC.
pub proof fn lemma_step_takes_documented_cycles(m: Machine)
    ensures
        m.step().cycles == m.documented_cycles(),
{
    reveal(Machine::step);
    let op = m.at_pc(0);
    if op == PREFIX_IX || op == PREFIX_IY {
        lemma_added_cycles(m.with_prefix(op).skip(1), m.at_pc(1));
    } else {
        lemma_added_cycles(m.with_prefix(0), op);
    }
}

/// NEG is a subtraction of A from zero, in result and in every flag.
pub proof fn lemma_neg_subtracts_from_zero(a: u8)
    ensures
        wrap_byte(0 - a) == sub_result(0, a, false),
        neg_flags(a) == sub_flags(0, a, false),
{
}

/// A compare leaves A alone and sets the flags of a subtraction, except that Y and
/// X show the operand.
pub proof fn lemma_compare_is_subtraction(reg: Registers, d: u8)
    ensures
        reg.compare_a(d).a == reg.a,
        reg.compare_a(d).flags == with_xy(reg.sub_a(d, false).flags, d),
{
}

/// The eight rotates and shifts in arithmetic: a move to the left doubles the byte
/// modulo 256 and a move to the right halves it; what comes in at the other end is
/// the bit moved out (RLC, RRC), the carry (RL, RR), zero (SLA, SRL), one (SLL) or
/// the old bit 7 (SRA).
pub proof fn lemma_shift_arithmetic(v: u8, carry: bool)
    ensures
        shift_result(0, v, carry) == (v * 2) % 256 + v / 128,
        shift_result(1, v, carry) == v / 2 + (v % 2) * 128,
        shift_result(2, v, carry) == (v * 2) % 256 + carry_in(carry),
        shift_result(3, v, carry) == v / 2 + carry_in(carry) * 128,
        shift_result(4, v, carry) == (v * 2) % 256,
        shift_result(5, v, carry) == v / 2 + (v / 128) * 128,
        shift_result(6, v, carry) == (v * 2) % 256 + 1,
        shift_result(7, v, carry) == v / 2,
{
    let c: u8 = if carry {
        1
    } else {
        0
    };
    let top: u8 = if carry {
        0x80
    } else {
        0
    };
    assert(((v << 1) | (v >> 7)) == (v * 2) % 256 + v / 128 && ((v >> 1) | (v << 7)) == v / 2 + (v
        % 2) * 128 && (v << 1) == (v * 2) % 256 && ((v >> 1) | (v & 0x80)) == v / 2 + (v / 128)
        * 128 && ((v << 1) | 0x01) == (v * 2) % 256 + 1 && (v >> 1) == v / 2) by (bit_vector);
    assert(((v << 1) | c) == (v * 2) % 256 + c && ((v >> 1) | top) == v / 2 + top) by (bit_vector)
        requires
            c == 0 || c == 1,
            top == 0 || top == 0x80,
    ;
}

/// AND, OR and XOR leave in P/V the even parity of the result they leave in A.
pub proof fn lemma_logic_parity(reg: Registers, op: BitOp, d: u8)
    ensures
        reg.logic_a(op, d).flags.p == even_parity(reg.logic_a(op, d).a),
        reg.logic_a(op, d).a == logic_result(op, reg.a, d),
{
}

/// Each rotate and shift of the CB page leaves in P/V the even parity of its result.
pub proof fn lemma_shift_parity(kind: u8, v: u8, carry: bool)
    ensures
        shift_flags(kind, v, carry).p == even_parity(shift_result(kind, v, carry)),
{
}

/// A byte masked down to one bit has no bit set if it is zero, else one.
proof fn lemma_single_bit_ones(v: u8, bit: u8)
    by (bit_vector)
    requires
        bit < 8,
    ensures
        (((v & (1u8 << bit)) >> 0u8) & 1) + (((v & (1u8 << bit)) >> 1u8) & 1) + (((v & (1u8
            << bit)) >> 2u8) & 1) + (((v & (1u8 << bit)) >> 3u8) & 1) + (((v & (1u8 << bit))
            >> 4u8) & 1) + (((v & (1u8 << bit)) >> 5u8) & 1) + (((v & (1u8 << bit)) >> 6u8) & 1)
            + (((v & (1u8 << bit)) >> 7u8) & 1) == (if v & (1u8 << bit) == 0 {
            0int
        } else {
            1int
        }),
{
}

/// BIT leaves in P/V the even parity of what it tested: the operand with every bit
/// but the tested one masked out.
pub proof fn lemma_bit_test_parity(f: Flags, bit: u8, v: u8, xy: u8)
    requires
        bit < 8,
    ensures
        bit_flags(f, bit, v, xy).p == even_parity(v & bit_mask(bit)),
{
    lemma_single_bit_ones(v, bit);
}

} // verus!
