use crate::arith::{word, wrap_word};
use crate::bus::{zeroed, Bus, MEMORY_SIZE};
use crate::registers::Registers;
use vstd::prelude::*;

verus! {

/// How the CPU answers a maskable interrupt.
#[allow(non_camel_case_types)]
#[derive(Clone, Copy, Debug, PartialEq, Eq, Structural)]
pub enum InterruptMode {
    IM_0,
    IM_1,
    IM_2,
}

/// The prefix byte that rewires HL to IX.
pub const PREFIX_IX: u8 = 0xDD;

/// The prefix byte that rewires HL to IY.
pub const PREFIX_IY: u8 = 0xFD;

/// The control and bus pins that no instruction drives, and the clock counter.
///
/// Pins whose name starts with `n_` are active low: `false` means asserted.
#[derive(Clone, Copy, Debug, PartialEq, Eq, Structural)]
pub struct Pins {
    pub n_m1: bool,
    pub n_mreq: bool,
    pub n_iorq: bool,
    pub n_rd: bool,
    pub n_wr: bool,
    pub n_rfsh: bool,
    pub n_wait: bool,
    pub n_int: bool,
    pub n_nmi: bool,
    pub n_reset: bool,
    pub n_busrq: bool,
    pub n_busack: bool,
    pub _clock: u64,
}

impl Pins {
    /// No pin asserted, the clock at zero.
    pub open spec fn idle() -> Pins {
        Pins {
            n_m1: true,
            n_mreq: true,
            n_iorq: true,
            n_rd: true,
            n_wr: true,
            n_rfsh: true,
            n_wait: true,
            n_int: true,
            n_nmi: true,
            n_reset: true,
            n_busrq: true,
            n_busack: true,
            _clock: 0,
        }
    }

    /// The pins of a processor that was just switched on.
    pub fn new() -> (pins: Self)
        ensures
            pins == Pins::idle(),
    {
        Self {
            n_m1: true,
            n_mreq: true,
            n_iorq: true,
            n_rd: true,
            n_wr: true,
            n_rfsh: true,
            n_wait: true,
            n_int: true,
            n_nmi: true,
            n_reset: true,
            n_busrq: true,
            n_busack: true,
            _clock: 0,
        }
    }
}

/// The Z80 processor: registers, memory, pins and interrupt state.
pub struct Z80 {
    pub reg: Registers,
    pub bus: Bus,
    pub pins: Pins,
    /// The HALT pin, active low: `false` while the CPU sits on a HALT instruction.
    pub n_halt: bool,
    /// Interrupt enable flip-flop 1: maskable interrupts are accepted.
    pub iff1: bool,
    /// Interrupt enable flip-flop 2: the copy of IFF1 kept across a non-maskable
    /// interrupt.
    pub iff2: bool,
    pub im: InterruptMode,
    /// The prefix in effect for the instruction being executed: `PREFIX_IX`,
    /// `PREFIX_IY`, or any other value for none.
    pub p_inst: u8,
}

/// The mathematical state of the processor: a `Z80` with its memory as a sequence
/// of bytes.
pub struct Machine {
    pub reg: Registers,
    pub mem: Seq<u8>,
    pub pins: Pins,
    pub n_halt: bool,
    pub iff1: bool,
    pub iff2: bool,
    pub im: InterruptMode,
    pub p_inst: u8,
}

/// A state together with T-states spent reaching it.
pub struct Step {
    pub state: Machine,
    pub cycles: int,
}

impl View for Z80 {
    type V = Machine;

    open spec fn view(&self) -> Machine {
        Machine {
            reg: self.reg,
            mem: self.bus@,
            pins: self.pins,
            n_halt: self.n_halt,
            iff1: self.iff1,
            iff2: self.iff2,
            im: self.im,
            p_inst: self.p_inst,
        }
    }
}

impl Machine {
    /// The state after power-on or reset: registers initial, memory zero, no pin
    /// asserted, interrupts disabled in mode 0, no prefix in effect.
    pub open spec fn initial() -> Machine {
        Machine {
            reg: Registers::initial(),
            mem: zeroed(),
            pins: Pins::idle(),
            n_halt: true,
            iff1: false,
            iff2: false,
            im: InterruptMode::IM_0,
            p_inst: 0,
        }
    }

    /// The state after a reset, whatever the state before.
    pub open spec fn reset(self) -> Machine {
        Machine::initial()
    }

    /// The memory covers the whole 16-bit address space.
    pub open spec fn wf(self) -> bool {
        self.mem.len() == MEMORY_SIZE
    }

    /// The byte at `addr`.
    pub open spec fn read(self, addr: u16) -> u8 {
        self.mem[addr as int]
    }

    /// The byte `offset` cells after PC, wrapping at the end of memory.
    pub open spec fn at_pc(self, offset: int) -> u8 {
        self.read(wrap_word(self.reg.pc + offset))
    }

    /// The little-endian word stored at `addr` and the cell after it.
    pub open spec fn read_word(self, addr: u16) -> u16 {
        word(self.read(wrap_word(addr + 1)), self.read(addr))
    }

    /// The state with `data` stored at `addr`.
    pub open spec fn write(self, addr: u16, data: u8) -> Machine {
        Machine { mem: self.mem.update(addr as int, data), ..self }
    }

    /// The state with the register file replaced.
    pub open spec fn with_reg(self, reg: Registers) -> Machine {
        Machine { reg, ..self }
    }

    /// The state with PC replaced.
    pub open spec fn with_pc(self, pc: u16) -> Machine {
        Machine { reg: self.reg.with_pc(pc), ..self }
    }

    /// The state with PC moved by `offset`, wrapping at 16 bits.
    pub open spec fn skip(self, offset: int) -> Machine {
        self.with_pc(wrap_word(self.reg.pc + offset))
    }

    /// The state with the prefix marker replaced.
    pub open spec fn with_prefix(self, p_inst: u8) -> Machine {
        Machine { p_inst, ..self }
    }
}

impl Z80 {
    /// A processor in its power-on state.
    pub fn new() -> (cpu: Self)
        ensures
            cpu@ == Machine::initial(),
    {
        Self {
            reg: Registers::new(),
            bus: Bus::new(),
            pins: Pins::new(),
            n_halt: true,
            iff1: false,
            iff2: false,
            im: InterruptMode::IM_0,
            p_inst: 0,
        }
    }

    /// Restores the power-on state: registers, memory, pins, interrupt state and
    /// prefix marker.
    pub fn reset(&mut self)
        ensures
            final(self)@ == old(self)@.reset(),
    {
        self.reg.reset();
        self.bus.reset();
        self.pins = Pins::new();
        self.n_halt = true;
        self.iff1 = false;
        self.iff2 = false;
        self.im = InterruptMode::IM_0;
        self.p_inst = 0;
    }
}

} // verus!
