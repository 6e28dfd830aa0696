use crate::arith::{make_word, word};
use crate::z80::{InterruptMode, Machine, Z80};
use vstd::prelude::*;

verus! {

/// The address that a non-maskable interrupt jumps to.
pub const NMI_VECTOR: u16 = 0x0066;

/// The address that a maskable interrupt jumps to in mode 1.
pub const INT_VECTOR: u16 = 0x0038;

impl Machine {
    /// The state with the processor taken out of HALT: the halt pin is released and
    /// PC moves from the HALT opcode to the instruction after it. A processor that
    /// is not halted is unchanged.
    pub open spec fn woken(self) -> Machine {
        if self.n_halt {
            self
        } else {
            Machine { n_halt: true, ..self.skip(1) }
        }
    }

    /// The state after a non-maskable interrupt is accepted: the processor leaves
    /// HALT, IFF1 is cleared while IFF2 keeps its value, PC is pushed and execution
    /// goes on at `NMI_VECTOR`.
    pub open spec fn nmi_accepted(self) -> Machine {
        let m = self.woken();
        Machine { iff1: false, ..m.push_word(m.reg.pc).with_pc(NMI_VECTOR) }
    }

    /// Where a maskable interrupt goes on after PC is pushed, with `data` the byte
    /// that the interrupting device puts on the bus: in mode 0 the byte is taken as
    /// a restart instruction and names the vector in its bits 5..3; in mode 1 the
    /// target is `INT_VECTOR`; in mode 2 it is the word stored at the address with
    /// I as its high byte and `data` as its low byte.
    pub open spec fn int_target(self, data: u8) -> u16 {
        match self.im {
            InterruptMode::IM_0 => (data & 0x38) as u16,
            InterruptMode::IM_1 => INT_VECTOR,
            InterruptMode::IM_2 => self.read_word(word(self.reg.i, data)),
        }
    }

    /// The state after a maskable interrupt is requested. With IFF1 clear the request
    /// is ignored. Else the processor leaves HALT, both flip-flops are cleared, PC is
    /// pushed and execution goes on at `int_target`, read after the push.
    pub open spec fn int_accepted(self, data: u8) -> Machine {
        if self.iff1 {
            let m = self.woken();
            let pushed = m.push_word(m.reg.pc);
            Machine { iff1: false, iff2: false, ..pushed.with_pc(pushed.int_target(data)) }
        } else {
            self
        }
    }
}

impl Z80 {
    /// Releases HALT, if the processor is halted.
    fn wake(&mut self)
        ensures
            final(self)@ == old(self)@.woken(),
    {
        if !self.n_halt {
            self.leave_halt();
        }
    }

    /// Releases the halt pin and moves PC past the HALT opcode.
    fn leave_halt(&mut self)
        ensures
            final(self)@ == (Machine { n_halt: true, ..old(self)@.skip(1) }),
    {
        self.reg.inc_pc();
        self.n_halt = true;
    }

    /// Where a maskable interrupt goes on.
    fn target_of(&self, data: u8) -> (target: u16)
        ensures
            target == self@.int_target(data),
    {
        match self.im {
            InterruptMode::IM_0 => (data & 0x38) as u16,
            InterruptMode::IM_1 => INT_VECTOR,
            InterruptMode::IM_2 => self.load_word(make_word(self.reg.i, data)),
        }
    }

    /// Pushes PC and goes on at `target`, with the flip-flops as given.
    fn enter(&mut self, target: u16, iff1: bool, iff2: bool)
        ensures
            final(self)@ == (Machine {
                iff1,
                iff2,
                ..old(self)@.push_word(old(self).reg.pc).with_pc(target)
            }),
    {
        reveal(Machine::push_word);
        let pc = self.reg.pc;
        self.push(pc);
        self.reg.pc = target;
        self.iff1 = iff1;
        self.iff2 = iff2;
    }

    /// Accepts a non-maskable interrupt. To be called between two steps.
    pub fn nmi(&mut self)
        ensures
            final(self)@ == old(self)@.nmi_accepted(),
    {
        reveal(Machine::push_word);
        self.wake();
        let iff2 = self.iff2;
        self.enter(NMI_VECTOR, false, iff2);
    }

    /// Requests a maskable interrupt, with `data` the byte that the device puts on
    /// the bus. To be called between two steps. Returns whether the interrupt was
    /// accepted, which is whether IFF1 was set.
    pub fn interrupt(&mut self, data: u8) -> (accepted: bool)
        ensures
            accepted == old(self).iff1,
            final(self)@ == old(self)@.int_accepted(data),
    {
        reveal(Machine::push_word);
        if self.iff1 {
            self.wake();
            let pc = self.reg.pc;
            self.push(pc);
            let target = self.target_of(data);
            self.enter_at(target);
            true
        } else {
            false
        }
    }

    /// Goes on at `target` with both flip-flops cleared.
    fn enter_at(&mut self, target: u16)
        ensures
            final(self)@ == (Machine { iff1: false, iff2: false, ..old(self)@.with_pc(target) }),
    {
        self.reg.pc = target;
        self.iff1 = false;
        self.iff2 = false;
    }
}

} // verus!
