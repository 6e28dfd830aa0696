use crate::arith::{hi, high, lo, low, make_word, word, wrap_word};
use vstd::prelude::*;

verus! {

/// A 16-bit register that can also be read and written as two 8-bit halves.
#[derive(Clone, Copy, Debug, PartialEq, Eq)]
pub struct Register {
    reg16: u16,
}

impl View for Register {
    type V = u16;

    closed spec fn view(&self) -> u16 {
        self.reg16
    }
}

impl Register {
    /// A register holding zero.
    pub fn new() -> (reg: Self)
        ensures
            reg@ == 0,
    {
        Self { reg16: 0 }
    }

    /// The whole 16-bit value.
    pub fn get_reg16(&self) -> (value: u16)
        ensures
            value == self@,
    {
        self.reg16
    }

    /// The high byte.
    pub fn get_reg8_h(&self) -> (value: u8)
        ensures
            value == high(self@),
    {
        hi(self.reg16)
    }

    /// The low byte.
    pub fn get_reg8_l(&self) -> (value: u8)
        ensures
            value == low(self@),
    {
        lo(self.reg16)
    }

    /// Replaces the whole 16-bit value.
    pub fn set_reg16(&mut self, value: u16)
        ensures
            final(self)@ == value,
    {
        self.reg16 = value;
    }

    /// Replaces the high byte and keeps the low byte.
    pub fn set_reg8_h(&mut self, value: u8)
        ensures
            final(self)@ == word(value, low(old(self)@)),
    {
        self.reg16 = make_word(value, lo(self.reg16));
    }

    /// Replaces the low byte and keeps the high byte.
    pub fn set_reg8_l(&mut self, value: u8)
        ensures
            final(self)@ == word(high(old(self)@), value),
    {
        self.reg16 = make_word(hi(self.reg16), value);
    }

    /// Adds the value of `rh`, modulo 2^16.
    pub fn add_r16_r16(&mut self, rh: &Register)
        ensures
            final(self)@ == wrap_word(old(self)@ + rh@),
    {
        self.reg16 = self.reg16.wrapping_add(rh.reg16);
    }

    /// Adds the unsigned byte `rh`, modulo 2^16.
    pub fn add_r16_i8(&mut self, rh: u8)
        ensures
            final(self)@ == wrap_word(old(self)@ + rh),
    {
        self.reg16 = self.reg16.wrapping_add(rh as u16);
    }

    /// Adds one, modulo 2^16.
    pub fn inc(&mut self)
        ensures
            final(self)@ == wrap_word(old(self)@ + 1),
    {
        self.add_r16_i8(1_u8);
    }
}

} // verus!
