//! Ambient temperature register: the temperature codec plus three read-only
//! alert-flag bits (lower/upper/critical threshold exceeded) at offsets 13,
//! 14 and 15, orthogonal to the temperature value itself.
use crate::reg::Register;
use crate::reg::RegView;
use crate::reg_res::ResolutionVal;
use crate::reg_temp_generic::ReadableTempRegister;
use crate::reg_temp_generic::spec_celsius_sixteenths;
use crate::reg_temp_generic::spec_milli_celsius;
use vstd::prelude::*;

verus! {

pub const REGISTER_PTR: u8 = 0b0101;

pub const REGISTER_SIZE: u8 = 2;

/// Critical-threshold alert flag (datasheet bit 15).
pub const BIT_ALERT_CRITICAL: usize = 15;

/// Upper-threshold alert flag (datasheet bit 14).
pub const BIT_ALERT_UPPER: usize = 14;

/// Lower-threshold alert flag (datasheet bit 13).
pub const BIT_ALERT_LOWER: usize = 13;

/// Capability of the ambient temperature register: the shared decode plus
/// the three threshold flags.
pub trait Temperature: ReadableTempRegister {
    fn is_alert_critical(&self) -> (r: bool)
        requires
            self.reg().wf(),
            self.reg().len == 2,
        ensures
            r == self.reg().bit(BIT_ALERT_CRITICAL as int),
    ;

    fn is_alert_upper(&self) -> (r: bool)
        requires
            self.reg().wf(),
            self.reg().len == 2,
        ensures
            r == self.reg().bit(BIT_ALERT_UPPER as int),
    ;

    fn is_alert_lower(&self) -> (r: bool)
        requires
            self.reg().wf(),
            self.reg().len == 2,
        ensures
            r == self.reg().bit(BIT_ALERT_LOWER as int),
    ;
}

/// A fresh, zeroed ambient temperature register (pointer 0b0101, 2 bytes).
pub fn new() -> (r: Register)
    ensures
        r@.wf(),
        r@.ptr == REGISTER_PTR,
        r@.len == REGISTER_SIZE,
        r@.msb == 0,
        r@.lsb == 0,
{
    Register::new(REGISTER_PTR, REGISTER_SIZE)
}

impl Temperature for Register {
    fn is_alert_critical(&self) -> (r: bool) {
        self.get_bit(BIT_ALERT_CRITICAL)
    }

    fn is_alert_upper(&self) -> (r: bool) {
        self.get_bit(BIT_ALERT_UPPER)
    }

    fn is_alert_lower(&self) -> (r: bool) {
        self.get_bit(BIT_ALERT_LOWER)
    }
}

/// The three alert flags are independent of each other and of the
/// temperature field: writing one of the bits 13, 14 or 15 flips no other
/// bit, and the decoded temperature is the same before and after, at every
/// resolution.
pub proof fn lemma_alert_flags_independent(r: RegView, o: int, v: bool, res: ResolutionVal)
    requires
        r.wf(),
        r.len == 2,
        13 <= o <= 15,
    ensures
        r.set_bit(o, v).bit(o) == v,
        forall|j: int| 0 <= j < 16 && j != o ==> r.set_bit(o, v).bit(j) == r.bit(j),
        spec_milli_celsius(r.set_bit(o, v), res) == spec_milli_celsius(r, res),
        spec_celsius_sixteenths(r.set_bit(o, v), res) == spec_celsius_sixteenths(r, res),
{
    crate::reg::lemma_set_bit_get_bit(r, o, v);
    let m1 = r.msb;
    let m2 = r.set_bit(o, v).msb;
    let k = (o - 8) as u8;
    assert(5 <= k <= 7 ==> (m1 | (1u8 << k)) & 0x1f == m1 & 0x1f) by (bit_vector);
    assert(5 <= k <= 7 ==> (m1 & !(1u8 << k)) & 0x1f == m1 & 0x1f) by (bit_vector);
    assert(m2 & 0x1f == m1 & 0x1f);
}

} // verus!
