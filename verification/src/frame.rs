use crate::flags::Flags;
use crate::z80::{Machine, PREFIX_IX, PREFIX_IY};
use vstd::prelude::*;

verus! {

impl Machine {
    /// `other` has the pins and the prefix marker of `self`, and a memory that
    /// covers the address space if that of `self` does.
    pub open spec fn same_frame(self, other: Machine) -> bool {
        &&& other.pins == self.pins
        &&& other.p_inst == self.p_inst
        &&& self.wf() ==> other.wf()
    }

    /// `other` has the halt pin, the interrupt flip-flops and the interrupt mode of
    /// `self`.
    pub open spec fn same_control(self, other: Machine) -> bool {
        &&& other.n_halt == self.n_halt
        &&& other.iff1 == self.iff1
        &&& other.iff2 == self.iff2
        &&& other.im == self.im
    }

    /// `other` differs from `self` in registers and memory contents at most.
    pub open spec fn same_outside(self, other: Machine) -> bool {
        self.same_frame(other) && self.same_control(other)
    }
}

/// Storing into a register or a pair changes registers only.
pub proof fn lemma_register_blocks_keep_outside()
    ensures
        forall|m: Machine, v: u8| m.same_outside(#[trigger] m.with_h_sel(v)),
        forall|m: Machine, v: u8| m.same_outside(#[trigger] m.with_l_sel(v)),
        forall|m: Machine, v: u16| m.same_outside(#[trigger] m.with_hl_sel(v)),
        forall|m: Machine, i: u8, v: u8| m.same_outside(#[trigger] m.with_r8(i, v)),
        forall|m: Machine, i: u8, v: u8| m.same_outside(#[trigger] m.with_r8_sel(i, v)),
        forall|m: Machine, p: u8, v: u16| m.same_outside(#[trigger] m.with_rp(p, v)),
        forall|m: Machine, p: u8, v: u16| m.same_outside(#[trigger] m.with_rp2(p, v)),
        forall|m: Machine, p: u8, v: u16| m.same_outside(#[trigger] m.with_pair(p, v)),
        forall|m: Machine, f: Flags| m.same_outside(#[trigger] m.with_flags(f)),
{
    assert forall|m: Machine, v: u8| m.same_outside(#[trigger] m.with_h_sel(v)) by {
        reveal(Machine::with_h_sel);
    }
    assert forall|m: Machine, v: u8| m.same_outside(#[trigger] m.with_l_sel(v)) by {
        reveal(Machine::with_l_sel);
    }
    assert forall|m: Machine, v: u16| m.same_outside(#[trigger] m.with_hl_sel(v)) by {
        reveal(Machine::with_hl_sel);
    }
    assert forall|m: Machine, i: u8, v: u8| m.same_outside(#[trigger] m.with_r8(i, v)) by {
        reveal(Machine::with_r8);
    }
    assert forall|m: Machine, i: u8, v: u8| m.same_outside(#[trigger] m.with_r8_sel(i, v)) by {
        reveal(Machine::with_r8_sel);
    }
    assert forall|m: Machine, p: u8, v: u16| m.same_outside(#[trigger] m.with_rp(p, v)) by {
        reveal(Machine::with_rp);
    }
    assert forall|m: Machine, p: u8, v: u16| m.same_outside(#[trigger] m.with_rp2(p, v)) by {
        reveal(Machine::with_rp2);
    }
    assert forall|m: Machine, p: u8, v: u16| m.same_outside(#[trigger] m.with_pair(p, v)) by {
        reveal(Machine::with_pair);
    }
    assert forall|m: Machine, f: Flags| m.same_outside(#[trigger] m.with_flags(f)) by {
        reveal(Machine::with_flags);
    }
}

/// Fetching an operand and working on A change registers only.
pub proof fn lemma_operand_blocks_keep_outside()
    ensures
        forall|m: Machine| m.same_outside(#[trigger] m.past_displacement()),
        forall|m: Machine, z: u8| m.same_outside(#[trigger] m.past_operand(z)),
        forall|m: Machine, y: u8, v: u8| m.same_outside(#[trigger] m.alu(y, v)),
        forall|m: Machine, v: u16| m.same_outside(#[trigger] m.add_to_hl(v)),
{
    lemma_register_blocks_keep_outside();
    assert forall|m: Machine| m.same_outside(#[trigger] m.past_displacement()) by {
        reveal(Machine::past_displacement);
    }
    assert forall|m: Machine, z: u8| m.same_outside(#[trigger] m.past_operand(z)) by {
        reveal(Machine::past_operand);
    }
    assert forall|m: Machine, y: u8, v: u8| m.same_outside(#[trigger] m.alu(y, v)) by {
        reveal(Machine::alu);
    }
    assert forall|m: Machine, v: u16| m.same_outside(#[trigger] m.add_to_hl(v)) by {
        reveal(Machine::add_to_hl);
    }
}

/// Pushing, popping and storing a word change registers and memory contents only.
pub proof fn lemma_stack_blocks_keep_outside()
    ensures
        forall|m: Machine, v: u16| m.same_outside(#[trigger] m.push_word(v)),
        forall|m: Machine| m.same_outside(#[trigger] m.pop_word()),
        forall|m: Machine, a: u16, v: u16| m.same_outside(#[trigger] m.write_word(a, v)),
{
    assert forall|m: Machine, v: u16| m.same_outside(#[trigger] m.push_word(v)) by {
        reveal(Machine::push_word);
    }
    assert forall|m: Machine| m.same_outside(#[trigger] m.pop_word()) by {
        reveal(Machine::pop_word);
    }
    assert forall|m: Machine, a: u16, v: u16| m.same_outside(#[trigger] m.write_word(a, v)) by {
        reveal(Machine::write_word);
    }
}

/// Jumps, calls and returns change registers and memory contents only.
pub proof fn lemma_jump_blocks_keep_outside()
    ensures
        forall|m: Machine| m.same_outside(#[trigger] m.jump()),
        forall|m: Machine| m.same_outside(#[trigger] m.jump_relative()),
        forall|m: Machine| m.same_outside(#[trigger] m.call()),
        forall|m: Machine| m.same_outside(#[trigger] m.returned()),
        forall|m: Machine, a: u8| m.same_outside(#[trigger] m.restart(a)),
{
    lemma_stack_blocks_keep_outside();
    assert forall|m: Machine| m.same_outside(#[trigger] m.jump()) by {
        reveal(Machine::jump);
    }
    assert forall|m: Machine| m.same_outside(#[trigger] m.jump_relative()) by {
        reveal(Machine::jump_relative);
    }
    assert forall|m: Machine| m.same_outside(#[trigger] m.call()) by {
        reveal(Machine::call);
    }
    assert forall|m: Machine| m.same_outside(#[trigger] m.returned()) by {
        reveal(Machine::returned);
    }
    assert forall|m: Machine, a: u8| m.same_outside(#[trigger] m.restart(a)) by {
        reveal(Machine::restart);
    }
}

/// The operations of the CB page change registers and memory contents only.
pub proof fn lemma_bit_blocks_keep_outside()
    ensures
        forall|m: Machine, d: u8, r: u8| m.same_outside(#[trigger] m.written_back(d, r)),
        forall|m: Machine, k: u8, r: u8, d: u8| m.same_outside(#[trigger] m.shifted(k, r, d)),
        forall|m: Machine, b: u8, r: u8, d: u8| m.same_outside(#[trigger] m.bit_tested(b, r, d)),
        forall|m: Machine, z: u8, r: u8| m.same_outside(#[trigger] m.cb_stored(z, r)),
        forall|m: Machine| m.same_outside(#[trigger] m.cb_fetched()),
{
    lemma_register_blocks_keep_outside();
    assert forall|m: Machine, d: u8, r: u8| m.same_outside(#[trigger] m.written_back(d, r)) by {
        reveal(Machine::written_back);
    }
    assert forall|m: Machine, k: u8, r: u8, d: u8|
        m.same_outside(#[trigger] m.shifted(k, r, d)) by {
        reveal(Machine::shifted);
    }
    assert forall|m: Machine, b: u8, r: u8, d: u8|
        m.same_outside(#[trigger] m.bit_tested(b, r, d)) by {
        reveal(Machine::bit_tested);
    }
    assert forall|m: Machine, z: u8, r: u8| m.same_outside(#[trigger] m.cb_stored(z, r)) by {
        reveal(Machine::cb_stored);
    }
    assert forall|m: Machine| m.same_outside(#[trigger] m.cb_fetched()) by {
        reveal(Machine::cb_fetched);
    }
}

/// A CB-page instruction changes registers and memory contents only.
pub proof fn lemma_cb_step_keeps_outside(m: Machine)
    ensures
        m.same_outside(m.cb_step().state),
{
    lemma_register_blocks_keep_outside();
    lemma_bit_blocks_keep_outside();
    reveal(Machine::cb_step);
    reveal(Machine::cb_state);
}

/// The block operations change registers and memory contents only.
pub proof fn lemma_block_step_keeps_outside(m: Machine, y: u8, z: u8)
    ensures
        m.same_outside(m.block_op(y, z).state),
{
    reveal(Machine::block_op);
    reveal(Machine::block_stepped);
    reveal(Machine::block_loaded);
    reveal(Machine::block_compared);
    reveal(Machine::block_input);
    reveal(Machine::block_output);
    reveal(Machine::block_counted);
}

/// Of the ED-page instructions with top bits 01, only RETN and RETI (field z of 5)
/// change IFF1, which they load from IFF2, and only the IM instructions (field z of
/// 6) change the interrupt mode; none changes anything else outside registers and
/// memory contents.
pub proof fn lemma_ed_quarter_frame(m: Machine, y: u8, z: u8)
    ensures
        m.same_frame(m.ed_quarter(y, z)),
        m.ed_quarter(y, z).n_halt == m.n_halt,
        m.ed_quarter(y, z).iff2 == m.iff2,
        m.ed_quarter(y, z).iff1 == (if z == 5 {
            m.iff2
        } else {
            m.iff1
        }),
        z != 6 ==> m.ed_quarter(y, z).im == m.im,
{
    lemma_register_blocks_keep_outside();
    lemma_stack_blocks_keep_outside();
    lemma_jump_blocks_keep_outside();
    reveal(Machine::ed_quarter);
    reveal(Machine::input_flags);
    reveal(Machine::sbc_hl_flags);
    reveal(Machine::adc_hl_flags);
    reveal(Machine::negated);
    reveal(Machine::returned_from_interrupt);
    reveal(Machine::loaded_a);
    reveal(Machine::rotated_left_digit);
    reveal(Machine::rotated_right_digit);
    let m1 = Machine { iff1: m.iff2, ..m };
    assert(m1.same_outside(m1.returned()));
}

/// What an ED-page instruction may change outside registers and memory contents:
/// RETN and RETI load IFF1 from IFF2, the IM instructions set the interrupt mode.
pub proof fn lemma_ed_step_frame(m: Machine)
    ensures
        m.same_frame(m.ed_step().state),
        m.ed_step().state.n_halt == m.n_halt,
        m.ed_step().state.iff2 == m.iff2,
        m.ed_step().state.iff1 == (if m.at_pc(1) / 64 == 1 && m.at_pc(1) % 8 == 5 {
            m.iff2
        } else {
            m.iff1
        }),
        !(m.at_pc(1) / 64 == 1 && m.at_pc(1) % 8 == 6) ==> m.ed_step().state.im == m.im,
{
    reveal(Machine::ed_step);
    let opcode = m.at_pc(1);
    let y = (opcode / 8) % 8;
    let z = opcode % 8;
    lemma_ed_quarter_frame(m.skip(1), y, z);
    lemma_block_step_keeps_outside(m.skip(1), y, z);
}

/// The opcodes with top bits 00 change registers and memory contents only.
pub proof fn lemma_quarter_0_keeps_outside(m: Machine, y: u8, z: u8)
    ensures
        m.same_outside(m.quarter_0(y, z).state),
{
    lemma_register_blocks_keep_outside();
    lemma_operand_blocks_keep_outside();
    lemma_stack_blocks_keep_outside();
    lemma_jump_blocks_keep_outside();
    reveal(Machine::quarter_0);
    reveal(Machine::relative_group);
    reveal(Machine::branch_relative);
    reveal(Machine::exchanged_af);
    reveal(Machine::word_group);
    reveal(Machine::indirect_group);
    reveal(Machine::count_group);
    reveal(Machine::step_group);
    reveal(Machine::immediate_group);
    reveal(Machine::accumulator_group);
}

/// The loads between registers change registers and memory contents only; HALT
/// asserts the halt pin and changes nothing else outside the registers.
pub proof fn lemma_load_group_frame(m: Machine, y: u8, z: u8)
    ensures
        m.same_frame(m.load_group(y, z)),
        m.load_group(y, z).iff1 == m.iff1,
        m.load_group(y, z).iff2 == m.iff2,
        m.load_group(y, z).im == m.im,
        m.load_group(y, z).n_halt == (m.n_halt && !(y == 6 && z == 6)),
{
    lemma_register_blocks_keep_outside();
    lemma_operand_blocks_keep_outside();
    reveal(Machine::load_group);
    reveal(Machine::halted);
}

/// Arithmetic and logic on A change registers only.
pub proof fn lemma_alu_group_keeps_outside(m: Machine, y: u8, z: u8)
    ensures
        m.same_outside(m.alu_group(y, z)),
{
    lemma_operand_blocks_keep_outside();
    reveal(Machine::alu_group);
}

/// Whether `op` is DI or EI.
pub open spec fn switches_interrupts(op: u8) -> bool {
    op == 0xF3 || op == 0xFB
}

/// Whether the ED-page opcode `opcode` is RETN, RETI or one of their aliases.
pub open spec fn returns_from_interrupt(opcode: u8) -> bool {
    opcode / 64 == 1 && opcode % 8 == 5
}

/// Whether the ED-page opcode `opcode` is one of the IM instructions.
pub open spec fn sets_interrupt_mode(opcode: u8) -> bool {
    opcode / 64 == 1 && opcode % 8 == 6
}

/// What the opcodes with top bits 11 may change outside registers and memory
/// contents: DI and EI set both flip-flops, and the ED page does what
/// `lemma_ed_step_frame` says.
pub proof fn lemma_quarter_3_frame(m: Machine, y: u8, z: u8)
    ensures
        m.same_frame(m.quarter_3(y, z).state),
        m.quarter_3(y, z).state.n_halt == m.n_halt,
        !(z == 5 && y == 5) ==> m.quarter_3(y, z).state.im == m.im,
        !(z == 5 && y == 5) && !(z == 3 && y >= 6) ==> m.same_control(m.quarter_3(y, z).state),
        z == 3 && y >= 6 ==> m.quarter_3(y, z).state.iff1 == (y == 7) && m.quarter_3(
            y,
            z,
        ).state.iff2 == (y == 7),
        z == 5 && y == 5 ==> m.quarter_3(y, z).state == m.ed_step().state,
{
    lemma_register_blocks_keep_outside();
    lemma_operand_blocks_keep_outside();
    lemma_stack_blocks_keep_outside();
    lemma_jump_blocks_keep_outside();
    lemma_cb_step_keeps_outside(m);
    lemma_ed_step_frame(m);
    reveal(Machine::quarter_3);
    reveal(Machine::return_group);
    reveal(Machine::pop_group);
    reveal(Machine::exchanged_all);
    reveal(Machine::jump_group);
    reveal(Machine::misc_group);
    reveal(Machine::input_a);
    reveal(Machine::exchanged_top);
    reveal(Machine::exchanged_de_hl);
    reveal(Machine::with_interrupts);
    reveal(Machine::call_group);
    reveal(Machine::push_group);
    reveal(Machine::alu_immediate);
}

/// What a base-page instruction may change outside registers and memory contents:
/// HALT asserts the halt pin, DI and EI set both flip-flops, RETN and RETI load IFF1
/// from IFF2, and the IM instructions set the interrupt mode.
pub proof fn lemma_base_step_frame(m: Machine, op: u8)
    ensures
        m.same_frame(m.base_step(op).state),
        m.base_step(op).state.n_halt == (m.n_halt && op != 0x76),
        m.base_step(op).state.iff2 == (if switches_interrupts(op) {
            op == 0xFB
        } else {
            m.iff2
        }),
        m.base_step(op).state.iff1 == (if switches_interrupts(op) {
            op == 0xFB
        } else if op == 0xED && returns_from_interrupt(m.at_pc(1)) {
            m.iff2
        } else {
            m.iff1
        }),
        !(op == 0xED && sets_interrupt_mode(m.at_pc(1))) ==> m.base_step(op).state.im == m.im,
{
    reveal(Machine::base_step);
    let y = (op / 8) % 8;
    let z = op % 8;
    lemma_quarter_0_keeps_outside(m, y, z);
    lemma_load_group_frame(m, y, z);
    lemma_alu_group_keeps_outside(m, y, z);
    lemma_quarter_3_frame(m, y, z);
    lemma_ed_step_frame(m);
}

impl Machine {
    /// The base-page opcode that the step at PC executes: the byte at PC, or the
    /// byte that follows a DD or FD prefix. A prefix that another prefix follows
    /// executes no opcode.
    pub open spec fn opcode(self) -> Option<u8> {
        let op = self.at_pc(0);
        if op == PREFIX_IX || op == PREFIX_IY {
            if Machine::voids_prefix(self.at_pc(1)) {
                None
            } else {
                Some(self.at_pc(1))
            }
        } else {
            Some(op)
        }
    }

    /// The ED-page opcode that the step at PC executes, if it executes one.
    pub open spec fn ed_opcode(self) -> Option<u8> {
        if self.at_pc(0) == 0xED {
            Some(self.at_pc(1))
        } else {
            None
        }
    }
}

/// No step drives a pin other than the halt pin, and every step leaves the memory
/// covering the address space.
pub proof fn lemma_step_keeps_pins_and_memory_size(m: Machine)
    ensures
        m.step().state.pins == m.pins,
        m.wf() ==> m.step().state.wf(),
{
    reveal(Machine::step);
    let op = m.at_pc(0);
    if op == PREFIX_IX || op == PREFIX_IY {
        lemma_base_step_frame(m.with_prefix(op).skip(1), m.at_pc(1));
    } else {
        lemma_base_step_frame(m.with_prefix(0), op);
    }
}

/// After a step the prefix marker shows the prefix of the instruction that ran:
/// the DD or FD byte at PC, or zero for none.
pub proof fn lemma_step_sets_prefix_marker(m: Machine)
    ensures
        m.step().state.p_inst == (if m.at_pc(0) == PREFIX_IX || m.at_pc(0) == PREFIX_IY {
            m.at_pc(0)
        } else {
            0
        }),
{
    reveal(Machine::step);
    let op = m.at_pc(0);
    if op == PREFIX_IX || op == PREFIX_IY {
        lemma_base_step_frame(m.with_prefix(op).skip(1), m.at_pc(1));
    } else {
        lemma_base_step_frame(m.with_prefix(0), op);
    }
}

/// The halt pin and the interrupt state change only where the instruction set says
/// so: only HALT asserts the halt pin and no instruction releases it; only DI and
/// EI change IFF2, which they clear and set; IFF1 follows IFF2 there and is loaded
/// from IFF2 by RETN and RETI; only the IM instructions change the interrupt mode.
pub proof fn lemma_step_control(m: Machine)
    ensures
        m.step().state.n_halt == (m.n_halt && m.opcode() != Some(0x76u8)),
        m.step().state.iff2 == (if m.opcode() == Some(0xF3u8) {
            false
        } else if m.opcode() == Some(0xFBu8) {
            true
        } else {
            m.iff2
        }),
        m.step().state.iff1 == (if m.opcode() == Some(0xF3u8) {
            false
        } else if m.opcode() == Some(0xFBu8) {
            true
        } else if m.ed_opcode().is_some() && returns_from_interrupt(m.ed_opcode().unwrap()) {
            m.iff2
        } else {
            m.iff1
        }),
        !(m.ed_opcode().is_some() && sets_interrupt_mode(m.ed_opcode().unwrap()))
            ==> m.step().state.im == m.im,
{
    reveal(Machine::step);
    let op = m.at_pc(0);
    if op == PREFIX_IX || op == PREFIX_IY {
        lemma_base_step_frame(m.with_prefix(op).skip(1), m.at_pc(1));
    } else {
        lemma_base_step_frame(m.with_prefix(0), op);
    }
}

} // verus!
