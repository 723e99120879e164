//! Device address.
//!
//! The sensor answers on a fixed default 7-bit address, or on that address
//! OR-ed with up to three pin-strapped low bits.
use vstd::prelude::*;

verus! {

/// Default slave address: all address pins disconnected.
pub const DEFAULT_ADDRESS: u8 = 0b1_1000;

/// I2C device address: the fixed default, or the default with the three
/// configurable pins A2, A1, A0 as its least-significant bits.
///
/// Equality compares resolved byte values, not the enum shape.
#[derive(Debug, Clone, Copy)]
pub enum SlaveAddress {
    /// Default slave address 0b1_1000 - all pins are disconnected
    Default,
    /// Alternative slave address with configurable pins A2, A1, A0.
    /// The address pins correspond to the Least Significant
    /// bits (LSbs) of the address bits.
    Alternative { a2: bool, a1: bool, a0: bool },
}

impl SlaveAddress {
    /// The single 7-bit bus address this value resolves to.
    pub open spec fn spec_resolved(self) -> u8 {
        match self {
            SlaveAddress::Default => DEFAULT_ADDRESS,
            SlaveAddress::Alternative { a2, a1, a0 } => DEFAULT_ADDRESS | (if a2 {
                4u8
            } else {
                0u8
            }) | (if a1 {
                2u8
            } else {
                0u8
            }) | (if a0 {
                1u8
            } else {
                0u8
            }),
        }
    }
}

impl From<SlaveAddress> for u8 {
    fn from(slave_address: SlaveAddress) -> (r: u8) {
        match slave_address {
            SlaveAddress::Default => DEFAULT_ADDRESS,
            SlaveAddress::Alternative { a2, a1, a0 } => DEFAULT_ADDRESS | (if a2 {
                4u8
            } else {
                0u8
            }) | (if a1 {
                2u8
            } else {
                0u8
            }) | (if a0 {
                1u8
            } else {
                0u8
            }),
        }
    }
}

impl vstd::std_specs::convert::FromSpecImpl<SlaveAddress> for u8 {
    open spec fn obeys_from_spec() -> bool {
        true
    }

    open spec fn from_spec(v: SlaveAddress) -> u8 {
        v.spec_resolved()
    }
}

impl PartialEq for SlaveAddress {
    fn eq(&self, other: &Self) -> (r: bool) {
        let lhs: u8 = (*self).into();
        let rhs: u8 = (*other).into();
        lhs == rhs
    }
}

impl vstd::std_specs::cmp::PartialEqSpecImpl for SlaveAddress {
    open spec fn obeys_eq_spec() -> bool {
        true
    }

    open spec fn eq_spec(&self, other: &Self) -> bool {
        self.spec_resolved() == other.spec_resolved()
    }
}

} // verus!
