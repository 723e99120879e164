//! Critical temperature limit register: a writable threshold compared
//! against the ambient reading to assert the hardware alert signal.
use crate::reg::Register;
use crate::reg_temp_generic::WritableTempRegister;
use vstd::prelude::*;

verus! {

pub const REGISTER_PTR: u8 = 0b0100;

pub const REGISTER_SIZE: u8 = 2;

/// Capability of the critical alert threshold register: the shared
/// temperature codec, readable and writable.
pub trait CriticalTemperatureAlert: WritableTempRegister {

}

/// A fresh, zeroed critical alert threshold register (pointer 0b0100, 2 bytes).
pub fn new() -> (r: Register)
    ensures
        r@.wf(),
        r@.ptr == REGISTER_PTR,
        r@.len == REGISTER_SIZE,
        r@.msb == 0,
        r@.lsb == 0,
{
    Register::new(REGISTER_PTR, REGISTER_SIZE)
}

impl CriticalTemperatureAlert for Register {

}

} // verus!
