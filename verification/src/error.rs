//! Errors surfaced by register transactions.
use vstd::prelude::*;

verus! {

/// All possible errors in this crate.
///
/// A transport failure is propagated unmodified; a malformed read (the bus
/// handed back a byte count that disagrees with the register's fixed length)
/// is reported with the observed size.
#[derive(Debug)]
pub enum Error<E> {
    /// I2C bus error
    I2c(E),
    /// The byte count read from the bus disagrees with the register length.
    RegisterSizeMismatch(u8),
}

impl<E> From<E> for Error<E> {
    /// A bare transport error converts to its wrapped form, unmodified.
    fn from(other: E) -> (r: Self) {
        Error::I2c(other)
    }
}

impl<E> vstd::std_specs::convert::FromSpecImpl<E> for Error<E> {
    open spec fn obeys_from_spec() -> bool {
        true
    }

    open spec fn from_spec(v: E) -> Error<E> {
        Error::I2c(v)
    }
}

} // verus!
