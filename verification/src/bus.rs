//! The transport port and the capability traits that marshal a register over
//! it.
//!
//! The physical two-wire bus is outside this crate: a caller supplies an
//! implementation of [`Bus`], typically an adapter around a hardware
//! peripheral. Nothing is assumed of it beyond its signatures; a register
//! read therefore re-checks the byte count the transport hands back, in the
//! verified [`Register::install_reply`] step.
//!
//! [`Read`] and [`Write`] split the transport capability: register kinds that
//! must stay read-only (manufacturer id, device id) simply never get the
//! [`Write`] bound, so no write path exists for them in the type system.
use crate::error::Error;
use crate::reg::Register;
use crate::reg::RegView;
use vstd::prelude::*;

verus! {

/// A blocking two-wire transport keyed by a 7-bit device address.
///
/// The driver states nothing about a transport's behaviour: any bytes, and
/// either outcome, may come back. Whatever the implementation does, the
/// register layer checks what it is handed.
pub trait Bus {
    /// The transport's native error.
    type BusError;

    /// One write transaction: send all of `bytes` to the device at `addr`.
    fn write(&mut self, addr: u8, bytes: &Vec<u8>) -> Result<(), Self::BusError>;

    /// One combined transaction: send all of `wbytes` to the device at
    /// `addr`, then read `read_len` bytes from it.
    fn write_read(&mut self, addr: u8, wbytes: &Vec<u8>, read_len: usize) -> Result<
        Vec<u8>,
        Self::BusError,
    >;
}

/// The bytes a write transaction sends: the register pointer, then the stored
/// bytes in big-endian order.
pub open spec fn spec_write_frame(r: RegView) -> Seq<u8> {
    if r.len == 1 {
        seq![r.ptr, r.msb]
    } else {
        seq![r.ptr, r.msb, r.lsb]
    }
}

/// The bytes a read transaction sends before reading: the register pointer
/// alone.
pub open spec fn spec_read_frame(r: RegView) -> Seq<u8> {
    seq![r.ptr]
}

/// The byte count a size-mismatch error reports for a reply of `n` bytes:
/// the observed count, saturated at the byte maximum.
pub open spec fn spec_observed_len(n: int) -> u8 {
    if n > 255 {
        255u8
    } else {
        n as u8
    }
}

impl Register {
    /// The wire frame of a write transaction: pointer byte followed by the
    /// 1 or 2 data bytes.
    pub fn to_write_frame(&self) -> (v: Vec<u8>)
        requires
            self@.wf(),
        ensures
            v@ == spec_write_frame(self@),
    {
        let mut v: Vec<u8> = Vec::new();
        v.push(self.get_ptr());
        v.push(self.get_msb());
        if self.get_len() == 2 {
            match self.get_lsb() {
                Some(b) => v.push(b),
                None => (),  // unreachable: the register is two bytes wide
            }
        }
        proof {
            assert(v@ =~= spec_write_frame(self@));
        }
        v
    }

    /// The wire frame of a read transaction: the pointer byte that selects
    /// the register before the data bytes are read back.
    pub fn to_read_frame(&self) -> (v: Vec<u8>)
        ensures
            v@ == spec_read_frame(self@),
    {
        let mut v: Vec<u8> = Vec::new();
        v.push(self.get_ptr());
        proof {
            assert(v@ =~= spec_read_frame(self@));
        }
        v
    }

    /// Store a transport reply: exactly the register's width installs the
    /// bytes, first byte first, overwriting prior content; any other byte
    /// count changes nothing and reports the observed count.
    pub fn install_reply(&mut self, bytes: &Vec<u8>) -> (r: Result<(), u8>)
        requires
            old(self)@.wf(),
        ensures
            bytes@.len() == old(self)@.len ==> r is Ok && final(self)@ == old(self)@.with_msb(
                bytes@[0],
            ).with_lsb(
                if old(self)@.len == 2 {
                    bytes@[1]
                } else {
                    old(self)@.lsb
                },
            ),
            bytes@.len() != old(self)@.len ==> (r matches Err(n) && n == spec_observed_len(
                bytes@.len() as int,
            ) && *final(self) == *old(self)),
    {
        let len = self.get_len();
        if bytes.len() != len as usize {
            return Err(
                if bytes.len() > 255 {
                    255
                } else {
                    bytes.len() as u8
                },
            );
        }
        self.set_msb(bytes[0]);
        if len == 2 {
            let lsb = bytes[1];
            self.set_lsb(lsb);
        }
        Ok(())
    }
}

/// Capability of a register that can be read from the device.
pub trait Read: Sized {
    /// The register state this value stands for.
    spec fn reg(&self) -> RegView;

    /// Issue a combined "write the pointer, then read the register's width"
    /// transaction and store the result, overwriting prior content. The
    /// pointer and length are never touched; on any error the register is
    /// left as it was. A transport failure is wrapped unmodified as `I2c`; a
    /// reply of the wrong width is a `RegisterSizeMismatch` carrying the
    /// observed byte count, which is never the register's own width.
    fn read_from_device<B: Bus>(&mut self, bus: &mut B, addr: u8) -> (r: Result<
        (),
        Error<B::BusError>,
    >)
        requires
            old(self).reg().wf(),
        ensures
            final(self).reg().wf(),
            final(self).reg().ptr == old(self).reg().ptr,
            final(self).reg().len == old(self).reg().len,
            r is Err ==> final(self).reg() == old(self).reg(),
            r matches Err(e) ==> (e is I2c || e is RegisterSizeMismatch),
            r matches Err(Error::RegisterSizeMismatch(n)) ==> n != old(self).reg().len,
    ;
}

/// Capability of a register that can be written to the device.
pub trait Write: Read {
    /// Issue a single write transaction of the register's wire frame:
    /// pointer byte, then the stored bytes in big-endian order. The only
    /// failure is the transport's native error, wrapped unmodified as `I2c`.
    fn write_to_device<B: Bus>(&self, bus: &mut B, addr: u8) -> (r: Result<
        (),
        Error<B::BusError>,
    >)
        requires
            self.reg().wf(),
        ensures
            r matches Err(e) ==> e is I2c,
    ;
}

impl Read for Register {
    open spec fn reg(&self) -> RegView {
        self@
    }

    fn read_from_device<B: Bus>(&mut self, bus: &mut B, addr: u8) -> (r: Result<
        (),
        Error<B::BusError>,
    >) {
        let frame = self.to_read_frame();
        let len = self.get_len();
        let bytes = match bus.write_read(addr, &frame, len as usize) {
            Ok(b) => b,
            Err(e) => {
                return Err(Error::I2c(e));
            },
        };
        match self.install_reply(&bytes) {
            Ok(()) => Ok(()),
            Err(n) => Err(Error::RegisterSizeMismatch(n)),
        }
    }
}

impl Write for Register {
    fn write_to_device<B: Bus>(&self, bus: &mut B, addr: u8) -> (r: Result<
        (),
        Error<B::BusError>,
    >) {
        let frame = self.to_write_frame();
        match bus.write(addr, &frame) {
            Ok(()) => Ok(()),
            Err(e) => Err(Error::I2c(e)),
        }
    }
}

} // verus!
