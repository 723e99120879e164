//! The device facade over a scripted mock transport, the identity registers,
//! and the slave address.
use mcp9808::MCP9808;
use mcp9808::address::SlaveAddress;
use mcp9808::bus::Bus;
use mcp9808::bus::Write;
use mcp9808::error::Error;
use mcp9808::reg::Register;
use mcp9808::reg_device_id::DeviceId;
use mcp9808::reg_manuf_id::ManufacturerId;
use mcp9808::reg_temp_generic::WritableTempRegister;

/// A scripted transport: records every transaction, answers reads from a
/// canned byte list, and can be told to fail.
struct MockBus {
    written: Vec<(u8, Vec<u8>)>,
    read_reply: Vec<u8>,
    fail: bool,
}

impl MockBus {
    fn replying(bytes: &[u8]) -> Self {
        MockBus { written: Vec::new(), read_reply: bytes.to_vec(), fail: false }
    }
}

impl Bus for MockBus {
    type BusError = &'static str;

    fn write(&mut self, addr: u8, bytes: &Vec<u8>) -> Result<(), Self::BusError> {
        if self.fail {
            return Err("bus fault");
        }
        self.written.push((addr, bytes.clone()));
        Ok(())
    }

    fn write_read(
        &mut self,
        addr: u8,
        wbytes: &Vec<u8>,
        _read_len: usize,
    ) -> Result<Vec<u8>, Self::BusError> {
        if self.fail {
            return Err("bus fault");
        }
        self.written.push((addr, wbytes.clone()));
        Ok(self.read_reply.clone())
    }
}

#[test]
fn default_address_resolves_to_0b11000() {
    let addr: u8 = SlaveAddress::Default.into();
    assert_eq!(addr, 0b1_1000);
}

#[test]
fn alternative_address_ors_in_the_pins() {
    let addr: u8 = SlaveAddress::Alternative { a2: true, a1: false, a0: true }.into();
    assert_eq!(addr, 0b1_1101);
    let addr: u8 = SlaveAddress::Alternative { a2: false, a1: false, a0: false }.into();
    assert_eq!(addr, 0b1_1000);
}

#[test]
fn addresses_compare_by_resolved_byte() {
    assert_eq!(
        SlaveAddress::Default,
        SlaveAddress::Alternative { a2: false, a1: false, a0: false }
    );
    assert_ne!(
        SlaveAddress::Default,
        SlaveAddress::Alternative { a2: false, a1: false, a0: true }
    );
}

#[test]
fn read_manufacturer_id_round_trip() {
    let bus = MockBus::replying(&[0x00, 0x54]);
    let mut dev = MCP9808::new(bus, SlaveAddress::Default);
    let reg = dev.read_manufacturer_id().unwrap();
    assert_eq!(reg.get_manufacturer_id(), 0x0054);
    assert!(reg.is_valid_manufacturer());

    // the transaction selected the manufacturer-id register at the default
    // address
    let bus = dev.free();
    assert_eq!(bus.written, vec![(0b1_1000u8, vec![0b0110u8])]);
}

#[test]
fn manufacturer_id_is_valid_only_for_the_constant() {
    for (word, ok) in [
        ([0x00u8, 0x54u8], true),
        ([0x00, 0x00], false),
        ([0x54, 0x00], false),
        ([0x00, 0x55], false),
        ([0xff, 0xff], false),
    ] {
        let mut reg = mcp9808::reg_manuf_id::new();
        reg.set_buf(word);
        assert_eq!(reg.is_valid_manufacturer(), ok);
    }
}

#[test]
fn device_id_checks_only_the_upper_byte() {
    let bus = MockBus::replying(&[0x04, 0x17]);
    let mut dev = MCP9808::new(bus, SlaveAddress::Default);
    let reg = dev.read_device_id().unwrap();
    assert!(reg.is_valid_device());
    assert_eq!(reg.get_device_id(), 0x04);
    assert_eq!(reg.get_device_rev(), 0x17);

    let mut other = mcp9808::reg_device_id::new();
    other.set_buf([0x05, 0x00]);
    assert!(!other.is_valid_device());
}

#[test]
fn short_read_is_a_size_mismatch() {
    let bus = MockBus::replying(&[0x54]);
    let mut dev = MCP9808::new(bus, SlaveAddress::Default);
    let err = dev.read_manufacturer_id().unwrap_err();
    assert!(matches!(err, Error::RegisterSizeMismatch(1)));
}

#[test]
fn transport_error_is_wrapped_unmodified() {
    let mut bus = MockBus::replying(&[]);
    bus.fail = true;
    let mut dev = MCP9808::new(bus, SlaveAddress::Default);
    let err = dev.read_temperature().unwrap_err();
    assert!(matches!(err, Error::I2c("bus fault")));
}

#[test]
fn write_register_sends_pointer_then_bytes() {
    let bus = MockBus::replying(&[]);
    let mut dev = MCP9808::new(bus, SlaveAddress::Alternative { a2: false, a1: true, a0: false });

    let mut reg = mcp9808::reg_temp_alert_upper::new();
    reg.set_milli_celsius(90000);
    dev.write_register(reg).unwrap();

    let bus = dev.free();
    assert_eq!(bus.written, vec![(0b1_1010u8, vec![0b0010u8, 0b0000_0101, 0b1010_0000])]);
}

#[test]
fn write_frame_of_one_byte_register() {
    let mut reg = mcp9808::reg_res::new();
    mcp9808::reg_res::Resolution::set_resolution(&mut reg, mcp9808::reg_res::ResolutionVal::Deg_0_0625C);
    assert_eq!(reg.to_write_frame(), vec![0b1000u8, 0b11]);
}

#[test]
fn read_populates_the_register_contents() {
    let bus = MockBus::replying(&[0b0000_0001, 0b1001_0100]);
    let mut dev = MCP9808::new(bus, SlaveAddress::Default);
    let reg: Register = dev.read_temperature().unwrap();
    assert_eq!(reg.get_msb(), 0b0000_0001);
    assert_eq!(reg.get_lsb(), Some(0b1001_0100));
    assert_eq!(reg.get_ptr(), 0b0101);
}

#[test]
fn writable_register_keeps_its_pointer() {
    let mut reg = mcp9808::reg_temp_alert_crit::new();
    reg.set_milli_celsius(1500);
    assert_eq!(reg.get_ptr(), 0b0100);
    let mut lower = mcp9808::reg_temp_alert_lower::new();
    lower.set_milli_celsius(1500);
    assert_eq!(lower.get_ptr(), 0b0011);
    assert_eq!(reg.get_buf(), lower.get_buf());
}

#[test]
fn transport_error_converts_to_its_wrapped_form() {
    let err: Error<&'static str> = Error::from("bus fault");
    assert!(matches!(err, Error::I2c("bus fault")));
    let err: Error<u8> = 7u8.into();
    assert!(matches!(err, Error::I2c(7)));
}

#[test]
fn read_frame_is_the_pointer_alone() {
    let reg = mcp9808::reg_temp::new();
    assert_eq!(reg.to_read_frame(), vec![0b0101u8]);
}

#[test]
fn install_reply_takes_only_the_exact_width() {
    let mut reg = mcp9808::reg_manuf_id::new();
    assert_eq!(reg.install_reply(&vec![0x00, 0x54]), Ok(()));
    assert_eq!(reg.get_msb(), 0x00);
    assert_eq!(reg.get_lsb(), Some(0x54));

    // a short and a long reply both leave the register as it was
    assert_eq!(reg.install_reply(&vec![0xff]), Err(1));
    assert_eq!(reg.install_reply(&vec![1, 2, 3]), Err(3));
    assert_eq!(reg.as_u16(), 0x0054);

    let mut one = mcp9808::reg_res::new();
    assert_eq!(one.install_reply(&vec![0b10]), Ok(()));
    assert_eq!(one.get_msb(), 0b10);
}

#[test]
fn write_to_device_reports_bus_fault() {
    let mut bus = MockBus::replying(&[]);
    bus.fail = true;
    let reg = mcp9808::reg_temp_alert_lower::new();
    let err = reg.write_to_device(&mut bus, 0b1_1000).unwrap_err();
    assert!(matches!(err, Error::I2c("bus fault")));
}
