//! A cycle-counting interpreter for the Zilog Z80.
//!
//! [`z80::Z80`] holds the processor: its registers, a flat 64 KiB memory behind the
//! bus, the pins and the interrupt state. [`z80::Z80::execute`] runs the instruction
//! at PC, prefixes included, and returns the T-states it took.
//!
//! Every executable function carries a contract over [`z80::Machine`], the
//! mathematical state of the processor, and is proved to meet it. The model of a
//! whole step is [`z80::Machine::step`]; `laws` holds what follows from the model:
//! timing, the control flow of jumps and calls, the behaviour of HALT and of the
//! block instructions.

pub mod alu;
pub mod arith;
pub mod base_instructions;
pub mod bus;
pub mod cb_instructions;
pub mod cycles;
pub mod ed_instructions;
pub mod flags;
pub mod frame;
pub mod instructions;
pub mod interrupts;
pub mod laws;
pub mod register;
pub mod registers;
pub mod z80;
pub mod z80_registers;
