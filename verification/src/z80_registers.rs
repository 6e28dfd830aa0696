use crate::register::Register;
use vstd::prelude::*;

verus! {

/// A register file of sixteen 16-bit registers: the main set and its alternates.
#[derive(Clone, Copy, Debug, PartialEq, Eq)]
pub struct Z80Registers {
    pub af: Register,
    pub bc: Register,
    pub de: Register,
    pub hl: Register,
    pub pc: Register,
    pub sp: Register,
    pub ix: Register,
    pub iy: Register,
    pub eaf: Register,
    pub ebc: Register,
    pub ede: Register,
    pub ehl: Register,
    pub epc: Register,
    pub esp: Register,
    pub eix: Register,
    pub eiy: Register,
}

impl Z80Registers {
    /// Every register of the file holds zero.
    pub open spec fn cleared(self) -> bool {
        &&& self.af@ == 0
        &&& self.bc@ == 0
        &&& self.de@ == 0
        &&& self.hl@ == 0
        &&& self.pc@ == 0
        &&& self.sp@ == 0
        &&& self.ix@ == 0
        &&& self.iy@ == 0
        &&& self.eaf@ == 0
        &&& self.ebc@ == 0
        &&& self.ede@ == 0
        &&& self.ehl@ == 0
        &&& self.epc@ == 0
        &&& self.esp@ == 0
        &&& self.eix@ == 0
        &&& self.eiy@ == 0
    }

    /// A file with every register zero.
    pub fn new() -> (file: Self)
        ensures
            file.cleared(),
    {
        Self {
            af: Register::new(),
            bc: Register::new(),
            de: Register::new(),
            hl: Register::new(),
            pc: Register::new(),
            sp: Register::new(),
            ix: Register::new(),
            iy: Register::new(),
            eaf: Register::new(),
            ebc: Register::new(),
            ede: Register::new(),
            ehl: Register::new(),
            epc: Register::new(),
            esp: Register::new(),
            eix: Register::new(),
            eiy: Register::new(),
        }
    }

    /// Clears every register to zero.
    pub fn reset(&mut self)
        ensures
            final(self).cleared(),
    {
        self.af.set_reg16(0);
        self.bc.set_reg16(0);
        self.de.set_reg16(0);
        self.hl.set_reg16(0);
        self.pc.set_reg16(0);
        self.sp.set_reg16(0);
        self.ix.set_reg16(0);
        self.iy.set_reg16(0);
        self.eaf.set_reg16(0);
        self.ebc.set_reg16(0);
        self.ede.set_reg16(0);
        self.ehl.set_reg16(0);
        self.epc.set_reg16(0);
        self.esp.set_reg16(0);
        self.eix.set_reg16(0);
        self.eiy.set_reg16(0);
    }
}

} // verus!
