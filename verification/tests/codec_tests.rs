//! The temperature codec: decode, encode, and the datasheet reference
//! patterns.
use mcp9808::reg::Register;
use mcp9808::reg_res::ResolutionVal;
use mcp9808::reg_temp_generic::ReadableTempRegister;
use mcp9808::reg_temp_generic::WritableTempRegister;
use mcp9808::reg_temp_generic::get_decimal_part;
use mcp9808::reg_temp_generic::get_fractional_part_dec;
use mcp9808::reg_temp_generic::get_precision_factor_dec;

#[test]
fn read_sensor_value() {
    let msb: u8 = 0b00000001;
    let lsb: u8 = 0b10010100;
    let mut reg = Register::new(1, 2);
    reg.set_buf([msb, lsb]);

    // 25.25 degrees C: at the finest resolution that is 25 whole degrees and
    // 4 sixteenths
    let temp = reg.get_celsius_sixteenths(ResolutionVal::Deg_0_0625C);
    assert_eq!(temp, 25 * 16 + 4);

    let temp = reg.get_milli_celsius(ResolutionVal::Deg_0_125C);
    assert_eq!(temp, 25250);
}

#[test]
fn set_milli_celsius() {
    let mut reg = Register::new(1, 2);

    // example bit pattern taken from data sheet, page 23
    reg.set_milli_celsius(90000);
    assert_eq!(0b00000101, reg.get_msb());
    assert_eq!(0b10100000, reg.get_lsb().unwrap());

    let temp = reg.get_milli_celsius(ResolutionVal::Deg_0_25C);
    assert_eq!(temp, 90000);
}

#[test]
fn set_milli_celsius_fractional() {
    let mut reg = Register::new(1, 2);

    // example bit pattern taken from data sheet, page 23
    reg.set_milli_celsius(90250);
    assert_eq!(0b00000101, reg.get_msb());
    assert_eq!(0b10100100, reg.get_lsb().unwrap());

    let temp = reg.get_milli_celsius(ResolutionVal::Deg_0_25C);
    assert_eq!(temp, 90250);
}

#[test]
fn milli_round_trip_quarter_degrees() {
    let mut reg = Register::new(1, 2);
    for val in (0..256000).step_by(250) {
        reg.set_milli_celsius(val);
        assert_eq!(reg.get_milli_celsius(ResolutionVal::Deg_0_25C), val);
        assert_eq!(reg.get_milli_celsius(ResolutionVal::Deg_0_125C), val);
        if val % 500 == 0 {
            assert_eq!(reg.get_milli_celsius(ResolutionVal::Deg_0_5C), val);
        }
    }
}

#[test]
fn encode_is_lossy_below_quarter_degrees() {
    let mut reg = Register::new(1, 2);
    // 0.125 degrees is below the two stored fraction bits: it is dropped
    reg.set_milli_celsius(90125);
    assert_eq!(reg.get_milli_celsius(ResolutionVal::Deg_0_125C), 90000);
}

#[test]
fn decimal_part_reads_sign_as_256_minus_magnitude() {
    // positive pattern: 0x019 * 16 + 4 = 404 sixteenths = 25.25 degrees
    assert_eq!(get_decimal_part(0b0000_0001, 0b1001_0100), 25);
    // flag bits above the field are cleared before decoding
    assert_eq!(get_decimal_part(0b1110_0001, 0b1001_0100), 25);
    // sign bit set: the two's-complement pattern of -20.25 degrees C
    // (8192 - 324 sixteenths = 0x1EBC) decodes as 256 - (14 * 16 + 11) = 21
    assert_eq!(get_decimal_part(0x1e, 0xbc), 21);
    // sign bit alone: 256 - 0
    assert_eq!(get_decimal_part(0x10, 0x00), 256);
}

#[test]
fn negative_encode_wraps_magnitude_bytes() {
    let mut reg = Register::new(1, 2);
    // a small negative value: the whole degrees truncate to zero, the sign
    // bit is set, and the fraction bits hold the wrapped remainder
    reg.set_milli_celsius(-250);
    assert_eq!(reg.get_msb(), 0x10);
    assert_eq!(reg.get_lsb().unwrap(), 0b0000_1100);

    // a negative value with whole degrees: each truncated part wraps to a
    // byte separately before the sign bit is OR-ed in
    reg.set_milli_celsius(-20250);
    assert_eq!(reg.get_msb(), 0xff);
    assert_eq!(reg.get_lsb().unwrap(), 0b1100_1100);
}

#[test]
fn encode_at_the_top_of_the_range() {
    let mut reg = Register::new(1, 2);
    // the largest representable value: 255.75 degrees C
    reg.set_milli_celsius(255750);
    assert_eq!(reg.get_msb(), 0b0000_1111);
    assert_eq!(reg.get_lsb().unwrap(), 0b1111_1100);
    assert_eq!(reg.get_milli_celsius(ResolutionVal::Deg_0_25C), 255750);

    reg.set_milli_celsius(0);
    assert_eq!(reg.get_msb(), 0);
    assert_eq!(reg.get_lsb().unwrap(), 0);
    assert_eq!(reg.get_milli_celsius(ResolutionVal::Deg_0_25C), 0);
}

#[test]
fn raw_value_combines_both_bytes() {
    let mut reg = Register::new(1, 2);
    reg.set_buf([0x1e, 0xbc]);
    assert_eq!(reg.get_raw_value(), 0x1ebc);
}

#[test]
fn precision_factors() {
    assert_eq!(get_precision_factor_dec(ResolutionVal::Deg_0_5C), 500);
    assert_eq!(get_precision_factor_dec(ResolutionVal::Deg_0_25C), 250);
    assert_eq!(get_precision_factor_dec(ResolutionVal::Deg_0_125C), 125);
    assert_eq!(get_precision_factor_dec(ResolutionVal::Deg_0_0625C), 62);
}

#[test]
fn fractional_part_scales_by_resolution() {
    let low: u8 = 0b0000_1100;  // three quarter-degree steps
    assert_eq!(get_fractional_part_dec(ResolutionVal::Deg_0_5C, low), 500);
    assert_eq!(get_fractional_part_dec(ResolutionVal::Deg_0_25C, low), 750);
    assert_eq!(get_fractional_part_dec(ResolutionVal::Deg_0_125C, low), 750);
}

#[test]
fn sixteenths_decode_is_exact_at_finest_resolution() {
    let mut reg = Register::new(1, 2);
    reg.set_buf([0b0000_0001, 0b1001_0111]);
    // all four fraction bits count: 25 degrees + 7 sixteenths
    assert_eq!(reg.get_celsius_sixteenths(ResolutionVal::Deg_0_0625C), 25 * 16 + 7);
    // at quarter resolution only the top two count: 25 degrees + 1 quarter
    assert_eq!(reg.get_celsius_sixteenths(ResolutionVal::Deg_0_25C), 25 * 16 + 4);
}
