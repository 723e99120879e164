//! Manufacturer id register: the full 16-bit value must equal the fixed
//! manufacturer constant for the device identity to hold.
use crate::bus::Read;
use crate::reg::Register;
use vstd::prelude::*;

verus! {

pub const REGISTER_PTR: u8 = 0b0110;

pub const REGISTER_SIZE: u8 = 2;

/// The manufacturer id every genuine sensor of this kind reports.
pub const MANUFACTURER_ID: u16 = 0x0054;

/// Capability of the manufacturer-id register. Read-only: the register never
/// gets a write path.
pub trait ManufacturerId: Read {
    /// The decoded 16-bit manufacturer id.
    fn get_manufacturer_id(&self) -> (r: u16)
        requires
            self.reg().wf(),
            self.reg().len == 2,
        ensures
            r as int == self.reg().value(),
    ;

    /// True exactly when the decoded value equals the manufacturer constant;
    /// false for any other 16-bit value, the all-zero register included.
    fn is_valid_manufacturer(&self) -> (r: bool)
        requires
            self.reg().wf(),
            self.reg().len == 2,
        ensures
            r == (self.reg().value() == MANUFACTURER_ID),
    ;
}

/// A fresh, zeroed manufacturer-id register (pointer 0b0110, 2 bytes).
pub fn new() -> (r: Register)
    ensures
        r@.wf(),
        r@.ptr == REGISTER_PTR,
        r@.len == REGISTER_SIZE,
        r@.msb == 0,
        r@.lsb == 0,
{
    Register::new(REGISTER_PTR, REGISTER_SIZE)
}

impl ManufacturerId for Register {
    fn get_manufacturer_id(&self) -> (r: u16) {
        // the register is fixed at 2 bytes, so both are present
        self.as_u16()
    }

    /// are we talking to the right device?
    fn is_valid_manufacturer(&self) -> (r: bool) {
        self.get_manufacturer_id() == MANUFACTURER_ID
    }
}

} // verus!
