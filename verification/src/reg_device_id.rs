//! Device id register: upper byte the fixed device id, lower byte the
//! hardware revision.
use crate::bus::Read;
use crate::reg::Register;
use vstd::prelude::*;

verus! {

pub const REGISTER_PTR: u8 = 0b0111;

pub const REGISTER_SIZE: u8 = 2;

/// The device id every genuine sensor of this kind reports.
pub const DEVICE_ID: u8 = 0x04;

/// Capability of the device-id register: identity check, id and revision.
/// Read-only: the register never gets a write path.
pub trait DeviceId: Read {
    /// Is the device id what it should be?
    fn is_valid_device(&self) -> (r: bool)
        requires
            self.reg().wf(),
            self.reg().len == 2,
        ensures
            r == (self.reg().msb == DEVICE_ID),
    ;

    /// Upper byte: the device id.
    fn get_device_id(&self) -> (r: u8)
        requires
            self.reg().wf(),
            self.reg().len == 2,
        ensures
            r == self.reg().msb,
    ;

    /// Lower byte: the device revision.
    fn get_device_rev(&self) -> (r: u8)
        requires
            self.reg().wf(),
            self.reg().len == 2,
        ensures
            r == self.reg().lsb,
    ;
}

/// A fresh, zeroed device-id register (pointer 0b0111, 2 bytes).
pub fn new() -> (r: Register)
    ensures
        r@.wf(),
        r@.ptr == REGISTER_PTR,
        r@.len == REGISTER_SIZE,
        r@.msb == 0,
        r@.lsb == 0,
{
    Register::new(REGISTER_PTR, REGISTER_SIZE)
}

impl DeviceId for Register {
    /// are we talking to the right device?
    fn is_valid_device(&self) -> (r: bool) {
        self.get_device_id() == DEVICE_ID
    }

    fn get_device_id(&self) -> (r: u8) {
        self.get_msb()
    }

    fn get_device_rev(&self) -> (r: u8) {
        match self.get_lsb() {
            Some(b) => b,
            None => 0,  // unreachable: the register is two bytes wide
        }
    }
}

} // verus!
