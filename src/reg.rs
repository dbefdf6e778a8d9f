//! The register file: sixteen 8-bit data registers V0..VF and the 12-bit
//! address register I.

use vstd::prelude::*;

use crate::constants::{DATA_REGISTERS_SIZE, MAX_ADDRESS};

verus! {

/// What the register file holds.
pub struct RegistersModel {
    /// V0..VF.
    pub v: Seq<u8>,
    /// The address register.
    pub i: u16,
}

pub struct Registers {
    data_registers: [u8; DATA_REGISTERS_SIZE],
    address_register: u16,
}

impl View for Registers {
    type V = RegistersModel;

    closed spec fn view(&self) -> RegistersModel {
        RegistersModel { v: self.data_registers@, i: self.address_register }
    }
}

impl Registers {
    /// Sixteen data registers, always.
    pub open spec fn wf(&self) -> bool {
        &&& self@.v.len() == DATA_REGISTERS_SIZE
        &&& self@.i <= MAX_ADDRESS
    }

    /// All registers zero.
    pub fn new() -> (r: Self)
        ensures
            r@.v == Seq::new(DATA_REGISTERS_SIZE as nat, |_i: int| 0u8),
            r@.i == 0,
            r.wf(),
    {
        let r = Self { data_registers: [0u8; DATA_REGISTERS_SIZE], address_register: 0 };
        assert(r@.v =~= Seq::new(DATA_REGISTERS_SIZE as nat, |_i: int| 0u8));
        r
    }

    pub fn get_i(&self) -> (r: u16)
        ensures
            r == self@.i,
    {
        self.address_register
    }

    /// Sets the address register; values above `0xFFF` are not admitted.
    pub fn set_i(&mut self, value: u16)
        requires
            value <= MAX_ADDRESS,
        ensures
            final(self)@ == (RegistersModel { i: value, ..old(self)@ }),
    {
        self.address_register = value;
    }

    /// The value of register `index`.
    pub fn get_v(&self, index: u8) -> (r: u8)
        requires
            (index as usize) < DATA_REGISTERS_SIZE,
        ensures
            r == self@.v[index as int],
    {
        self.data_registers[index as usize]
    }

    /// Sets register `index` to `value`.
    pub fn set_v(&mut self, index: u8, value: u8)
        requires
            (index as usize) < DATA_REGISTERS_SIZE,
        ensures
            final(self)@ == (RegistersModel {
                v: old(self)@.v.update(index as int, value),
                ..old(self)@
            }),
    {
        self.data_registers[index as usize] = value;
    }
}

} // verus!
