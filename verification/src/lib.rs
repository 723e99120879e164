//! Driver core for the MCP9808 digital temperature sensor.
//!
//! The sensor is reached over a two-wire addressable bus; this crate models
//! its registers (identification, configuration, resolution, temperature and
//! alert thresholds) as a fixed-size storage cell with bit-level accessors,
//! and proves the register arithmetic and the temperature codec correct.
//! The physical bus is abstracted by the [`bus::Bus`] port trait, which the
//! caller implements for the transport at hand.
use vstd::prelude::*;

pub mod address;
pub mod bus;
pub mod error;
pub mod reg;
pub mod reg_conf;
pub mod reg_device_id;
pub mod reg_manuf_id;
pub mod reg_res;
pub mod reg_temp;
pub mod reg_temp_alert_crit;
pub mod reg_temp_alert_lower;
pub mod reg_temp_alert_upper;
pub mod reg_temp_generic;

use crate::address::SlaveAddress;
use crate::bus::Bus;
use crate::bus::Read;
use crate::bus::Write;
use crate::error::Error;
use crate::reg::Register;

verus! {

/// MCP9808 driver: the resolved bus address and the transport handle, one
/// exclusive owner per physical device. Each typed operation performs one
/// blocking bus transaction and interprets the result.
pub struct MCP9808<I2C> {
    addr: u8,
    i2c: I2C,
}

impl<I2C: Bus> MCP9808<I2C> {
    /// The resolved 7-bit device address.
    pub closed spec fn spec_addr(&self) -> u8 {
        self.addr
    }

    /// The owned transport handle.
    pub closed spec fn spec_i2c(&self) -> I2C {
        self.i2c
    }

    /// Creates a new driver from an I2C peripheral.
    pub fn new(i2c: I2C, addr: SlaveAddress) -> (r: Self)
        ensures
            r.spec_addr() == addr.spec_resolved(),
            r.spec_i2c() == i2c,
    {
        MCP9808 { addr: addr.into(), i2c }
    }

    /// release resources
    pub fn free(self) -> (r: I2C)
        ensures
            r == self.spec_i2c(),
    {
        self.i2c
    }

    /// Populate `reg` with one read transaction.
    fn read_register<T: Read>(&mut self, reg: T) -> (r: Result<T, Error<I2C::BusError>>)
        requires
            reg.reg().wf(),
        ensures
            final(self).spec_addr() == old(self).spec_addr(),
            r matches Ok(out) ==> out.reg().wf() && out.reg().ptr == reg.reg().ptr && out.reg().len
                == reg.reg().len,
            r matches Err(e) ==> (e is I2c || e is RegisterSizeMismatch),
            r matches Err(Error::RegisterSizeMismatch(n)) ==> n != reg.reg().len,
    {
        let mut reg = reg;
        match reg.read_from_device(&mut self.i2c, self.addr) {
            Ok(()) => Ok(reg),
            Err(e) => Err(e),
        }
    }

    /// Consume `reg` with one write transaction.
    pub fn write_register<R: Write>(&mut self, reg: R) -> (r: Result<(), Error<I2C::BusError>>)
        requires
            reg.reg().wf(),
        ensures
            final(self).spec_addr() == old(self).spec_addr(),
            r matches Err(e) ==> e is I2c,
    {
        match reg.write_to_device(&mut self.i2c, self.addr) {
            Ok(()) => Ok(()),
            Err(e) => Err(e),
        }
    }

    /// Read the configuration register.
    pub fn read_configuration(&mut self) -> (r: Result<Register, Error<I2C::BusError>>)
        ensures
            final(self).spec_addr() == old(self).spec_addr(),
            r matches Ok(out) ==> out@.wf() && out@.ptr == reg_conf::REGISTER_PTR && out@.len
                == reg_conf::REGISTER_SIZE,
            r matches Err(e) ==> (e is I2c || e is RegisterSizeMismatch),
            r matches Err(Error::RegisterSizeMismatch(n)) ==> n != reg_conf::REGISTER_SIZE,
    {
        self.read_register(reg_conf::new())
    }

    /// Read the device-id register.
    pub fn read_device_id(&mut self) -> (r: Result<Register, Error<I2C::BusError>>)
        ensures
            final(self).spec_addr() == old(self).spec_addr(),
            r matches Ok(out) ==> out@.wf() && out@.ptr == reg_device_id::REGISTER_PTR && out@.len
                == reg_device_id::REGISTER_SIZE,
            r matches Err(e) ==> (e is I2c || e is RegisterSizeMismatch),
            r matches Err(Error::RegisterSizeMismatch(n)) ==> n != reg_device_id::REGISTER_SIZE,
    {
        self.read_register(reg_device_id::new())
    }

    /// Read the manufacturer-id register.
    pub fn read_manufacturer_id(&mut self) -> (r: Result<Register, Error<I2C::BusError>>)
        ensures
            final(self).spec_addr() == old(self).spec_addr(),
            r matches Ok(out) ==> out@.wf() && out@.ptr == reg_manuf_id::REGISTER_PTR && out@.len
                == reg_manuf_id::REGISTER_SIZE,
            r matches Err(e) ==> (e is I2c || e is RegisterSizeMismatch),
            r matches Err(Error::RegisterSizeMismatch(n)) ==> n != reg_manuf_id::REGISTER_SIZE,
    {
        self.read_register(reg_manuf_id::new())
    }

    /// Read the resolution register.
    pub fn read_resolution(&mut self) -> (r: Result<Register, Error<I2C::BusError>>)
        ensures
            final(self).spec_addr() == old(self).spec_addr(),
            r matches Ok(out) ==> out@.wf() && out@.ptr == reg_res::REGISTER_PTR && out@.len
                == reg_res::REGISTER_SIZE,
            r matches Err(e) ==> (e is I2c || e is RegisterSizeMismatch),
            r matches Err(Error::RegisterSizeMismatch(n)) ==> n != reg_res::REGISTER_SIZE,
    {
        self.read_register(reg_res::new())
    }

    /// Read the ambient temperature register. It is double-buffered in the
    /// sensor, so no wait is required.
    pub fn read_temperature(&mut self) -> (r: Result<Register, Error<I2C::BusError>>)
        ensures
            final(self).spec_addr() == old(self).spec_addr(),
            r matches Ok(out) ==> out@.wf() && out@.ptr == reg_temp::REGISTER_PTR && out@.len
                == reg_temp::REGISTER_SIZE,
            r matches Err(e) ==> (e is I2c || e is RegisterSizeMismatch),
            r matches Err(Error::RegisterSizeMismatch(n)) ==> n != reg_temp::REGISTER_SIZE,
    {
        self.read_register(reg_temp::new())
    }

    /// Read the critical alert threshold register.
    pub fn read_alert_critical(&mut self) -> (r: Result<Register, Error<I2C::BusError>>)
        ensures
            final(self).spec_addr() == old(self).spec_addr(),
            r matches Ok(out) ==> out@.wf() && out@.ptr == reg_temp_alert_crit::REGISTER_PTR
                && out@.len == reg_temp_alert_crit::REGISTER_SIZE,
            r matches Err(e) ==> (e is I2c || e is RegisterSizeMismatch),
            r matches Err(Error::RegisterSizeMismatch(n)) ==> n != reg_temp_alert_crit::REGISTER_SIZE,
    {
        self.read_register(reg_temp_alert_crit::new())
    }

    /// Read the lower alert threshold register.
    pub fn read_alert_lower(&mut self) -> (r: Result<Register, Error<I2C::BusError>>)
        ensures
            final(self).spec_addr() == old(self).spec_addr(),
            r matches Ok(out) ==> out@.wf() && out@.ptr == reg_temp_alert_lower::REGISTER_PTR
                && out@.len == reg_temp_alert_lower::REGISTER_SIZE,
            r matches Err(e) ==> (e is I2c || e is RegisterSizeMismatch),
            r matches Err(Error::RegisterSizeMismatch(n)) ==> n != reg_temp_alert_lower::REGISTER_SIZE,
    {
        self.read_register(reg_temp_alert_lower::new())
    }

    /// Read the upper alert threshold register.
    pub fn read_alert_upper(&mut self) -> (r: Result<Register, Error<I2C::BusError>>)
        ensures
            final(self).spec_addr() == old(self).spec_addr(),
            r matches Ok(out) ==> out@.wf() && out@.ptr == reg_temp_alert_upper::REGISTER_PTR
                && out@.len == reg_temp_alert_upper::REGISTER_SIZE,
            r matches Err(e) ==> (e is I2c || e is RegisterSizeMismatch),
            r matches Err(Error::RegisterSizeMismatch(n)) ==> n != reg_temp_alert_upper::REGISTER_SIZE,
    {
        self.read_register(reg_temp_alert_upper::new())
    }
}

} // verus!
