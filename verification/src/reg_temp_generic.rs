//! The shared temperature codec used by every temperature-bearing register.
//!
//! Bit layout of a 2-byte temperature register, datasheet numbering:
//! bit 15-13 flag bits (ambient register only), bit 12 sign
//! (0 = at or above 0 degrees C, 1 = below), bits 11-4 integer degrees,
//! bits 3-0 fractional nibble in 0.0625 degree steps.
//!
//! Decoding is a pure function of the 16 stored bits and the chosen
//! resolution. Encoding truncates to the integer degrees, then keeps only the
//! two most significant fractional bits: writes are lossy below 0.25 degree
//! granularity regardless of the requested resolution, a property of the
//! alert-threshold registers that is preserved here exactly.
use crate::bus::{Read, Write};
use crate::reg::Register;
use crate::reg::RegView;
use crate::reg_res::ResolutionVal;
use vstd::prelude::*;

verus! {

/// Magnitudes of 256 degrees C (256000 milli-degrees) or more are out of the
/// representable range.
pub const RANGE_LIMIT: i32 = 256;

/// Sign bit of the upper byte (datasheet bit 12).
pub const BIT_SIGN: u8 = 0x10;

/// Milli-degrees per fractional step at each resolution. The finest
/// resolution does not divide 1000 evenly (62.5 milli-degrees), so its factor
/// is the truncated 62 and the milli-degree decode refuses it.
pub open spec fn spec_precision_factor_dec(res: ResolutionVal) -> int {
    match res {
        ResolutionVal::Deg_0_0625C => 62,
        ResolutionVal::Deg_0_125C => 125,
        ResolutionVal::Deg_0_25C => 250,
        ResolutionVal::Deg_0_5C => 500,
    }
}

/// How far the fractional nibble is shifted right before scaling: only the
/// top `code + 1` of the four stored fraction bits are significant at a
/// given resolution.
pub open spec fn spec_fract_shift(res: ResolutionVal) -> u8 {
    match res {
        ResolutionVal::Deg_0_5C => 3,
        ResolutionVal::Deg_0_25C => 2,
        ResolutionVal::Deg_0_125C => 1,
        ResolutionVal::Deg_0_0625C => 0,
    }
}

/// One fractional step at each resolution, in sixteenths of a degree.
pub open spec fn spec_step_sixteenths(res: ResolutionVal) -> int {
    match res {
        ResolutionVal::Deg_0_5C => 8,
        ResolutionVal::Deg_0_25C => 4,
        ResolutionVal::Deg_0_125C => 2,
        ResolutionVal::Deg_0_0625C => 1,
    }
}

/// The integer-degree part of a stored temperature. The upper byte is masked
/// to its low 5 bits; if the sign bit is set among them the value is read as
/// 256 minus the magnitude, in the datasheet's two's-complement convention.
pub open spec fn spec_decimal_part(msb: u8, lsb: u8) -> int {
    let h = msb & 0x1f;
    if h & BIT_SIGN == BIT_SIGN {
        256 - ((h & 0x0f) * 16 + lsb / 16)
    } else {
        h * 16 + lsb / 16
    }
}

/// The number of significant fractional steps stored in the lower byte at
/// the given resolution.
pub open spec fn spec_fract_steps(res: ResolutionVal, lsb: u8) -> u8 {
    (lsb & 0x0f) >> spec_fract_shift(res)
}

/// The stored temperature in milli-degrees C at the given resolution.
pub open spec fn spec_milli_celsius(r: RegView, res: ResolutionVal) -> int {
    spec_decimal_part(r.msb, r.lsb) * 1000 + spec_fract_steps(res, r.lsb)
        * spec_precision_factor_dec(res)
}

/// The stored temperature in sixteenths of a degree C at the given
/// resolution; exact at every resolution, the finest included.
pub open spec fn spec_celsius_sixteenths(r: RegView, res: ResolutionVal) -> int {
    spec_decimal_part(r.msb, r.lsb) * 16 + spec_fract_steps(res, r.lsb) * spec_step_sixteenths(res)
}

/// The magnitude of an encoder input: encoding works on the absolute value
/// and re-applies the sign by two's-complement wrapping.
pub open spec fn spec_enc_mag(val: int) -> int {
    if val < 0 {
        -val
    } else {
        val
    }
}

/// The whole degrees an encode of `val` milli-degrees truncates to
/// (magnitude; the sign is wrapped in separately).
pub open spec fn spec_enc_whole(val: int) -> int {
    spec_enc_mag(val) / 1000
}

/// The two's-complement byte wrap of a truncated part: the value itself for a
/// non-negative input, `(256 - m) % 256` for a negative one.
pub open spec fn spec_wrap(val: int, m: int) -> int {
    if val < 0 {
        (256 - m) % 256
    } else {
        m
    }
}

/// The upper byte an encode of `val` milli-degrees stores: the whole degrees
/// divided by 16, wrapped to a byte, with the sign bit OR-ed in for negative
/// inputs.
pub open spec fn spec_enc_msb(val: int) -> u8 {
    let hi_q = spec_enc_whole(val) / 16;
    if val < 0 {
        ((spec_wrap(val, hi_q) as u8) | BIT_SIGN)
    } else {
        hi_q as u8
    }
}

/// The fractional bits an encode of `val` milli-degrees stores: the
/// milli-degree remainder in whole (truncated) 0.0625-degree steps, wrapped
/// to a byte and masked to the two most significant fraction bits.
pub open spec fn spec_enc_fract_bits(val: int) -> u8 {
    let fb = (spec_enc_mag(val) % 1000) / 62;
    ((spec_wrap(val, fb) as u8) & 0x0c)
}

/// The lower byte an encode of `val` milli-degrees stores: the whole degrees
/// times 16 wrapped to a byte, plus the fractional bits.
pub open spec fn spec_enc_lsb(val: int) -> u8 {
    (spec_wrap(val, (spec_enc_whole(val) * 16) % 256) + spec_enc_fract_bits(val)) as u8
}

/// Capability of a register that carries a temperature: decoding, never
/// encoding. Shared by the ambient-temperature and alert-threshold registers.
pub trait ReadableTempRegister: Read {
    /// Temperature in milli-degrees C. Works only down to the 0.125 degree
    /// resolution: a 0.0625-degree step is not a whole number of
    /// milli-degrees.
    fn get_milli_celsius(&self, res: ResolutionVal) -> (r: i32)
        requires
            self.reg().wf(),
            self.reg().len == 2,
            res != ResolutionVal::Deg_0_0625C,
        ensures
            r as int == spec_milli_celsius(self.reg(), res),
    ;

    /// Temperature in sixteenths of a degree C; exact at every resolution.
    fn get_celsius_sixteenths(&self, res: ResolutionVal) -> (r: i32)
        requires
            self.reg().wf(),
            self.reg().len == 2,
        ensures
            r as int == spec_celsius_sixteenths(self.reg(), res),
    ;

    /// Raw register value.
    fn get_raw_value(&self) -> (r: u16)
        requires
            self.reg().wf(),
        ensures
            r as int == self.reg().value(),
    ;
}

/// Capability of a temperature register that may also be written: the three
/// alert thresholds.
pub trait WritableTempRegister: ReadableTempRegister + Write {
    /// Store `val` milli-degrees C. Magnitudes of 256 degrees or more are out
    /// of the representable range; fractions finer than 0.25 degrees are
    /// discarded by the register format.
    fn set_milli_celsius(&mut self, val: i32)
        requires
            old(self).reg().wf(),
            old(self).reg().len == 2,
            -1000 * RANGE_LIMIT < val < 1000 * RANGE_LIMIT,
        ensures
            final(self).reg() == old(self).reg().with_msb(spec_enc_msb(val as int)).with_lsb(
                spec_enc_lsb(val as int),
            ),
    ;
}

/// The integer-degree part of a stored temperature, from the two raw bytes.
pub fn get_decimal_part(msb: u8, lsb: u8) -> (r: i16)
    ensures
        r as int == spec_decimal_part(msb, lsb),
        0 <= r <= 511,
{
    let h = msb & 0x1f;
    proof {
        assert(msb & 0x1f < 0x20) by (bit_vector);
        assert((msb & 0x1f) & 0x0f < 0x10) by (bit_vector);
    }
    if h & BIT_SIGN == BIT_SIGN {
        let h2 = h & 0x0f;
        256 - ((h2 as i16) * 16 + (lsb as i16) / 16)
    } else {
        (h as i16) * 16 + (lsb as i16) / 16
    }
}

/// Milli-degrees per fractional step at the given resolution.
pub fn get_precision_factor_dec(res: ResolutionVal) -> (r: u16)
    ensures
        r as int == spec_precision_factor_dec(res),
{
    match res {
        ResolutionVal::Deg_0_0625C => 62,
        ResolutionVal::Deg_0_125C => 125,
        ResolutionVal::Deg_0_25C => 250,
        ResolutionVal::Deg_0_5C => 500,
    }
}

/// The fractional contribution of the lower byte in milli-degrees: the
/// significant fraction steps times the resolution's step size.
pub fn get_fractional_part_dec(res: ResolutionVal, low: u8) -> (r: u16)
    ensures
        r as int == spec_fract_steps(res, low) as int * spec_precision_factor_dec(res),
        r <= 7500,
{
    let shift: u8 = match res {
        ResolutionVal::Deg_0_5C => 3,
        ResolutionVal::Deg_0_25C => 2,
        ResolutionVal::Deg_0_125C => 1,
        ResolutionVal::Deg_0_0625C => 0,
    };
    let nib = low & 0x0f;
    proof {
        assert(low & 0x0f < 0x10) by (bit_vector);
        assert(nib < 0x10 ==> (nib >> shift) <= nib) by (bit_vector);
    }
    let steps = nib >> shift;
    (steps as u16) * get_precision_factor_dec(res)
}

impl ReadableTempRegister for Register {
    fn get_milli_celsius(&self, res: ResolutionVal) -> (r: i32) {
        let high = self.get_msb();
        let low: u8 = match self.get_lsb() {
            Some(b) => b,
            None => 0,  // unreachable: the register is two bytes wide
        };

        let temp_dec = get_decimal_part(high, low) as i32 * 1000;
        temp_dec + get_fractional_part_dec(res, low) as i32
    }

    fn get_celsius_sixteenths(&self, res: ResolutionVal) -> (r: i32) {
        let high = self.get_msb();
        let low: u8 = match self.get_lsb() {
            Some(b) => b,
            None => 0,  // unreachable: the register is two bytes wide
        };

        let shift: u8 = match res {
            ResolutionVal::Deg_0_5C => 3,
            ResolutionVal::Deg_0_25C => 2,
            ResolutionVal::Deg_0_125C => 1,
            ResolutionVal::Deg_0_0625C => 0,
        };
        let step: i32 = match res {
            ResolutionVal::Deg_0_5C => 8,
            ResolutionVal::Deg_0_25C => 4,
            ResolutionVal::Deg_0_125C => 2,
            ResolutionVal::Deg_0_0625C => 1,
        };
        let nib = low & 0x0f;
        proof {
            assert(low & 0x0f < 0x10) by (bit_vector);
            assert(nib < 0x10 ==> (nib >> shift) <= nib) by (bit_vector);
        }
        let steps = nib >> shift;
        get_decimal_part(high, low) as i32 * 16 + (steps as i32) * step
    }

    fn get_raw_value(&self) -> (r: u16) {
        self.as_u16()
    }
}

impl WritableTempRegister for Register {
    fn set_milli_celsius(&mut self, val: i32) {
        let neg = val < 0;
        let mag: i32 = if neg {
            -val
        } else {
            val
        };
        let whole: i32 = mag / 1000;
        let fract: i32 = mag % 1000;

        let fb_mag: i32 = fract / 62;
        let fb_wrapped: i32 = if neg {
            (256 - fb_mag) % 256
        } else {
            fb_mag
        };
        let fract_bits: u8 = (fb_wrapped as u8) & 0x0c;
        proof {
            assert(fract_bits == spec_enc_fract_bits(val as int));
        }

        let hi_q: i32 = whole / 16;
        let hi_wrapped: i32 = if neg {
            (256 - hi_q) % 256
        } else {
            hi_q
        };
        let mut high: u8 = hi_wrapped as u8;
        if neg {
            high = high | BIT_SIGN;
        }
        proof {
            assert(high == spec_enc_msb(val as int));
        }

        let lb_m: i32 = (whole * 16) % 256;
        let lb_wrapped: i32 = if neg {
            (256 - lb_m) % 256
        } else {
            lb_m
        };
        proof {
            lemma_mul_16_mod_256(whole as int);
            assert((fb_wrapped as u8) & 0x0c <= 0x0c) by (bit_vector);
        }
        let low: u8 = (lb_wrapped as u8) + fract_bits;
        proof {
            assert(low == spec_enc_lsb(val as int));
        }

        self.set_msb(high);
        self.set_lsb(low);
    }
}

/// Sign handling, encode side: an encode of any negative temperature sets
/// the sign bit (datasheet bit 12) in the stored upper byte.
pub proof fn lemma_negative_encode_sets_sign_bit(val: int)
    requires
        -1000 * RANGE_LIMIT < val < 0,
    ensures
        spec_enc_msb(val) & BIT_SIGN == BIT_SIGN,
{
    let w = spec_wrap(val, spec_enc_whole(val) / 16) as u8;
    assert((w | 0x10) & 0x10 == 0x10) by (bit_vector);
}

/// Sign handling, decode side: a register whose sign bit is set among the
/// five temperature bits of the upper byte decodes its integer-degree part in
/// the datasheet's `256 - magnitude` convention, the magnitude being the
/// remaining four upper-byte bits and the whole-degree part of the lower
/// byte.
pub proof fn lemma_sign_bit_reads_as_256_minus_magnitude(msb: u8, lsb: u8)
    requires
        msb & BIT_SIGN == BIT_SIGN,
    ensures
        spec_decimal_part(msb, lsb) == 256 - ((msb & 0x0f) * 16 + lsb / 16),
{
    assert(msb & 0x10 == 0x10 ==> (msb & 0x1f) & 0x10 == 0x10 && (msb & 0x1f) & 0x0f == msb & 0x0f)
        by (bit_vector);
}

/// Encode/decode round trip: a non-negative temperature that the encoder can
/// represent exactly — a whole multiple of 0.25 degrees C (250
/// milli-degrees), or of 0.5 degrees for the coarsest resolution — is decoded
/// back unchanged at any resolution fine enough to see its fraction.
///
/// The bound is tight on both sides: the encoder keeps only the two most
/// significant fraction bits, so finer fractions are lost, and a negative
/// input is stored as a sign bit over wrapped magnitude bytes, which the
/// decoder reads in the datasheet's `256 - magnitude` convention rather than
/// undoing the wrap.
pub proof fn lemma_encode_decode_round_trip(r: RegView, val: int, res: ResolutionVal)
    requires
        0 <= val < 1000 * RANGE_LIMIT,
        res == ResolutionVal::Deg_0_25C || res == ResolutionVal::Deg_0_125C || res
            == ResolutionVal::Deg_0_5C,
        val % (if res == ResolutionVal::Deg_0_5C {
            500int
        } else {
            250int
        }) == 0,
    ensures
        spec_milli_celsius(r.with_msb(spec_enc_msb(val)).with_lsb(spec_enc_lsb(val)), res) == val,
{
    let d = val / 1000;
    let f = val % 1000;
    vstd::arithmetic::div_mod::lemma_fundamental_div_mod(val, 1000);
    vstd::arithmetic::div_mod::lemma_mod_bound(val, 1000);

    // the milli-degree remainder keeps the divisibility of the input
    assert(f % 250 == 0) by {
        vstd::arithmetic::div_mod::lemma_mod_mod(val, 250, 4);
        if res == ResolutionVal::Deg_0_5C {
            vstd::arithmetic::div_mod::lemma_mod_mod(val, 250, 2);
        }
    }

    let msbv = spec_enc_msb(val);
    let fbv = spec_enc_fract_bits(val);
    let lsbv = spec_enc_lsb(val);

    assert(0 <= d <= 255);
    lemma_mul_16_mod_256(d);
    let m = d % 16;
    let q = d / 16;
    vstd::arithmetic::div_mod::lemma_fundamental_div_mod(d, 16);
    vstd::arithmetic::div_mod::lemma_mod_bound(d, 16);
    assert(0 <= q <= 15);

    // the fraction bits: a quarter multiple survives the mask
    let s = f / 250;
    vstd::arithmetic::div_mod::lemma_fundamental_div_mod(f, 250);
    assert(0 <= s <= 3);
    assert(f == 250 * s);
    let fb0 = f / 62;
    assert(fbv == ((fb0 as u8) & 0x0c));
    assert(fb0 == 4 * s);
    assert((0u8 & 0x0c) == 0 && (4u8 & 0x0c) == 4 && (8u8 & 0x0c) == 8 && (12u8 & 0x0c) == 12)
        by (bit_vector);
    assert(fbv == 4 * s);

    // the stored bytes, in terms of the whole-degree quotient and remainder
    assert(msbv == q as u8);
    assert(lsbv as int == m * 16 + 4 * s);

    // the decode sees no sign bit and recovers the whole degrees
    let mu = msbv;
    assert(mu <= 15 ==> (mu & 0x1f) == mu && (mu & 0x1f) & BIT_SIGN != BIT_SIGN) by (bit_vector);
    let lu = lsbv;
    let mb = m as u8;
    let sb = s as u8;
    assert(lu == mb * 16 + 4 * sb && mb <= 15 && sb <= 3 ==> lu / 16 == mb && (lu & 0x0f) == 4
        * sb) by (bit_vector);
    assert(spec_decimal_part(msbv, lsbv) == q * 16 + m);
    assert(q * 16 + m == d);

    // the significant fraction steps scale back to the milli-degree remainder
    let steps = spec_fract_steps(res, lsbv);
    let fr = (4 * s) as u8;
    assert(fr == 4 * sb && sb <= 3 ==> (fr >> 2) == sb && (fr >> 1) == 2 * sb && (fr >> 3) == sb
        / 2) by (bit_vector);
    if res == ResolutionVal::Deg_0_25C {
        assert(steps as int * 250 == f);
    } else if res == ResolutionVal::Deg_0_125C {
        assert(steps as int * 125 == f);
    } else {
        assert(f % 500 == 0) by {
            vstd::arithmetic::div_mod::lemma_mod_mod(val, 500, 2);
        }
        assert(s == 0 || s == 2);
        assert(steps as int * 500 == f);
    }
    assert(spec_milli_celsius(r.with_msb(msbv).with_lsb(lsbv), res) == d * 1000 + f);
}

/// `(w * 16) % 256` is a multiple of 16 and at most 240, and so is its
/// two's-complement byte wrap `(256 - _) % 256`.
proof fn lemma_mul_16_mod_256(w: int)
    requires
        0 <= w,
    ensures
        (w * 16) % 256 == (w % 16) * 16,
        0 <= (w * 16) % 256 <= 240,
        0 <= (256 - (w * 16) % 256) % 256 <= 240,
{
    vstd::arithmetic::div_mod::lemma_mod_bound(w, 16);
    assert((w * 16) % 256 == (w % 16) * 16) by {
        vstd::arithmetic::div_mod::lemma_fundamental_div_mod(w, 16);
        let q = w / 16;
        let r = w % 16;
        assert(w * 16 == 256 * q + r * 16) by {
            vstd::arithmetic::mul::lemma_mul_is_distributive_add_other_way(16, 16 * q, r);
            vstd::arithmetic::mul::lemma_mul_is_associative(16, 16, q);
        }
        vstd::arithmetic::div_mod::lemma_mod_multiples_vanish(q, r * 16, 256);
        vstd::arithmetic::div_mod::lemma_small_mod((r * 16) as nat, 256);
    }
    let m = (w % 16) * 16;
    if m == 0 {
        vstd::arithmetic::div_mod::lemma_mod_self_0(256);
    } else {
        vstd::arithmetic::div_mod::lemma_small_mod((256 - m) as nat, 256);
    }
}

} // verus!
