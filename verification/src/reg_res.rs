//! Resolution register: the configurable fractional precision of ambient
//! temperature conversion.
use crate::bus::Write;
use crate::reg::Register;
use vstd::prelude::*;

verus! {

pub const REGISTER_PTR: u8 = 0b1000;

pub const REGISTER_SIZE: u8 = 1;

/// The four conversion resolutions, each mapping 1:1 to a 2-bit code
/// (0..=3) and to a precision of 0.5, 0.25, 0.125 or 0.0625 degrees C;
/// the code grows as the precision gets finer.
#[allow(non_camel_case_types)]
#[derive(Clone, Copy, Debug, PartialEq, Eq, Structural)]
pub enum ResolutionVal {
    /// tCONV = 30 ms typical
    Deg_0_5C,
    /// tCONV = 65 ms typical
    Deg_0_25C,
    /// tCONV = 130 ms typical
    Deg_0_125C,
    /// power-up default, tCONV = 250 ms typical
    Deg_0_0625C,
}

/// The 2-bit code a resolution is stored as.
pub open spec fn spec_res_code(res: ResolutionVal) -> u8 {
    match res {
        ResolutionVal::Deg_0_5C => 0,
        ResolutionVal::Deg_0_25C => 1,
        ResolutionVal::Deg_0_125C => 2,
        ResolutionVal::Deg_0_0625C => 3,
    }
}

/// The resolution a stored byte decodes to: only the codes 0..=3 are mapped,
/// any other byte is an invalid-resolution condition.
pub open spec fn spec_resolution_of(b: u8) -> Option<ResolutionVal> {
    if b == 0 {
        Some(ResolutionVal::Deg_0_5C)
    } else if b == 1 {
        Some(ResolutionVal::Deg_0_25C)
    } else if b == 2 {
        Some(ResolutionVal::Deg_0_125C)
    } else if b == 3 {
        Some(ResolutionVal::Deg_0_0625C)
    } else {
        None
    }
}

/// Capability of the resolution register: read the stored resolution code and
/// write a new one.
pub trait Resolution: Write {
    /// The stored resolution. A byte outside the four mapped codes is a
    /// malformed register and yields `None` rather than a default.
    fn get_resolution(&self) -> (r: Option<ResolutionVal>)
        requires
            self.reg().wf(),
        ensures
            r == spec_resolution_of(self.reg().msb),
    ;

    /// Store the 2-bit code of `p`.
    fn set_resolution(&mut self, p: ResolutionVal)
        requires
            old(self).reg().wf(),
        ensures
            final(self).reg() == old(self).reg().with_msb(spec_res_code(p)),
    ;
}

/// A fresh, zeroed resolution register (pointer 0b1000, 1 byte).
pub fn new() -> (r: Register)
    ensures
        r@.wf(),
        r@.ptr == REGISTER_PTR,
        r@.len == REGISTER_SIZE,
        r@.msb == 0,
        r@.lsb == 0,
{
    Register::new(REGISTER_PTR, REGISTER_SIZE)
}

impl Resolution for Register {
    fn get_resolution(&self) -> (r: Option<ResolutionVal>) {
        let val: u8 = self.get_msb();
        match val {
            0b00 => Some(ResolutionVal::Deg_0_5C),
            0b01 => Some(ResolutionVal::Deg_0_25C),
            0b10 => Some(ResolutionVal::Deg_0_125C),
            0b11 => Some(ResolutionVal::Deg_0_0625C),
            _ => None,
        }
    }

    fn set_resolution(&mut self, p: ResolutionVal) {
        let code: u8 = match p {
            ResolutionVal::Deg_0_5C => 0,
            ResolutionVal::Deg_0_25C => 1,
            ResolutionVal::Deg_0_125C => 2,
            ResolutionVal::Deg_0_0625C => 3,
        };
        self.set_msb(code);
    }
}

} // verus!
