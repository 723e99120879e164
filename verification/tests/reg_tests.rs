//! Register bit-level behaviour and the typed register views.
use mcp9808::reg::Register;
use mcp9808::reg_res::Resolution;
use mcp9808::reg_res::ResolutionVal;
use mcp9808::reg_temp::Temperature;

#[test]
fn bitfield_manipulation() {
    let mut reg: Register = Register::new(1, 2);

    assert_eq!(reg.as_u16(), 0);

    assert_eq!(reg.get_bit(15), false);
    reg.set_bit(15, true);
    assert_eq!(reg.get_bit(15), true);

    assert_eq!(reg.get_bit(0), false);
    reg.set_bit(0, true);
    assert_eq!(reg.get_bit(0), true);
}

#[test]
fn resolution() {
    let mut reg: Register = mcp9808::reg_res::new();
    assert_eq!(reg.get_resolution().unwrap(), ResolutionVal::Deg_0_5C);

    reg.set_resolution(ResolutionVal::Deg_0_25C);
    assert_eq!(reg.get_resolution().unwrap(), ResolutionVal::Deg_0_25C);

    reg.set_resolution(ResolutionVal::Deg_0_125C);
    assert_eq!(reg.get_resolution().unwrap(), ResolutionVal::Deg_0_125C);

    reg.set_resolution(ResolutionVal::Deg_0_0625C);
    assert_eq!(reg.get_resolution().unwrap(), ResolutionVal::Deg_0_0625C);

    reg.set_resolution(ResolutionVal::Deg_0_5C);
    assert_eq!(reg.get_resolution().unwrap(), ResolutionVal::Deg_0_5C);
}

#[test]
fn resolution_rejects_unmapped_codes() {
    let mut reg: Register = mcp9808::reg_res::new();
    for bad in [4u8, 5, 17, 0x80, 0xff] {
        reg.set_msb(bad);
        assert!(reg.get_resolution().is_none());
    }
    reg.set_msb(3);
    assert_eq!(reg.get_resolution(), Some(ResolutionVal::Deg_0_0625C));
}

#[test]
fn alert_critical() {
    let mut reg = mcp9808::reg_temp::new();

    assert_eq!(reg.is_alert_critical(), false);
    reg.set_bit(mcp9808::reg_temp::BIT_ALERT_CRITICAL, true);
    assert_eq!(reg.is_alert_critical(), true);
}

#[test]
fn alert_upper() {
    let mut reg = mcp9808::reg_temp::new();

    assert_eq!(reg.is_alert_upper(), false);
    reg.set_bit(mcp9808::reg_temp::BIT_ALERT_UPPER, true);
    assert_eq!(reg.is_alert_upper(), true);
}

#[test]
fn alert_lower() {
    let mut reg = mcp9808::reg_temp::new();

    assert_eq!(reg.is_alert_lower(), false);
    reg.set_bit(mcp9808::reg_temp::BIT_ALERT_LOWER, true);
    assert_eq!(reg.is_alert_lower(), true);
}

#[test]
fn set_bit_disturbs_no_other_bit() {
    let mut reg: Register = Register::new(1, 2);
    // a checkerboard background
    reg.set_buf([0b0101_0101, 0b1010_1010]);
    let before: Vec<bool> = (0..16).map(|k| reg.get_bit(k)).collect();

    for o in 0..16usize {
        let mut r2 = reg;
        r2.set_bit(o, !before[o]);
        assert_eq!(r2.get_bit(o), !before[o]);
        for j in 0..16usize {
            if j != o {
                assert_eq!(r2.get_bit(j), before[j], "bit {} disturbed by setting {}", j, o);
            }
        }
    }
}

#[test]
fn fresh_two_byte_register_is_zero() {
    let reg: Register = Register::new(0b0101, 2);
    assert_eq!(reg.as_u16(), 0);
    let reg1: Register = Register::new(0b1000, 1);
    assert_eq!(reg1.as_u16(), 0);
}

#[test]
fn one_byte_register_has_no_lsb() {
    let mut reg: Register = Register::new(0b1000, 1);
    assert!(reg.get_lsb().is_none());
    reg.set_msb(0xab);
    assert_eq!(reg.get_msb(), 0xab);
    assert_eq!(reg.as_u16(), 0xab);
    assert_eq!(reg.get_buf(), vec![0xab]);
}

#[test]
fn buffer_round_trip() {
    let mut reg: Register = Register::new(0b0110, 2);
    reg.set_buf([0x00, 0x54]);
    assert_eq!(reg.get_msb(), 0x00);
    assert_eq!(reg.get_lsb(), Some(0x54));
    assert_eq!(reg.as_u16(), 0x0054);
    assert_eq!(reg.get_buf(), vec![0x00, 0x54]);
    assert_eq!(reg.get_ptr(), 0b0110);
    assert_eq!(reg.get_len(), 2);
}

#[test]
fn alert_flags_are_independent_of_temperature() {
    let mut reg = mcp9808::reg_temp::new();
    // 25.25 degrees C ambient pattern
    reg.set_buf([0b0000_0001, 0b1001_0100]);
    let milli = mcp9808::reg_temp_generic::ReadableTempRegister::get_milli_celsius(
        &reg,
        ResolutionVal::Deg_0_25C,
    );

    for o in [
        mcp9808::reg_temp::BIT_ALERT_LOWER,
        mcp9808::reg_temp::BIT_ALERT_UPPER,
        mcp9808::reg_temp::BIT_ALERT_CRITICAL,
    ] {
        let mut r2 = reg;
        r2.set_bit(o, true);
        // the temperature field is untouched
        assert_eq!(
            mcp9808::reg_temp_generic::ReadableTempRegister::get_milli_celsius(
                &r2,
                ResolutionVal::Deg_0_25C,
            ),
            milli
        );
        // the other two flags are untouched
        assert_eq!(r2.is_alert_lower(), o == mcp9808::reg_temp::BIT_ALERT_LOWER);
        assert_eq!(r2.is_alert_upper(), o == mcp9808::reg_temp::BIT_ALERT_UPPER);
        assert_eq!(r2.is_alert_critical(), o == mcp9808::reg_temp::BIT_ALERT_CRITICAL);
    }
}
