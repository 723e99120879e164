//! The fixed-size, pointer-addressed storage cell exchanged with the sensor.
//!
//! A register is 1 or 2 bytes wide, selected by a one-byte pointer. The
//! datasheet numbers bits LSb-first: bit 0 is the least-significant bit of the
//! *last* stored byte and bit 15 the most-significant bit of the *first*
//! stored byte; the accessors translate that numbering to storage order.
use vstd::prelude::*;

verus! {

/// One register of the sensor: a pointer, one or two data bytes, and the
/// fixed byte length chosen at construction.
#[derive(Debug, Copy, Clone)]
pub struct Register {
    /// points to a specific register in the sensor
    ptr: u8,
    /// upper byte, stored first on the bus
    msb: u8,
    /// lower byte, stored second on the bus; meaningful only when `len == 2`
    lsb: u8,
    /// actual register size in bytes, either 1 or 2
    len: u8,
}

/// The mathematical model of a [`Register`]: the same four bytes, fully
/// visible to specifications.
pub ghost struct RegView {
    /// the register-pointer byte
    pub ptr: u8,
    /// the upper (first) data byte
    pub msb: u8,
    /// the lower (second) data byte
    pub lsb: u8,
    /// the byte length, 1 or 2
    pub len: u8,
}

/// The value of bit `k` (0 = least significant) of a byte.
pub open spec fn u8_bit(b: u8, k: int) -> bool {
    (b >> (k as u8)) & 1 == 1
}

/// The byte `b` with bit `k` set to `v` and every other bit unchanged.
pub open spec fn u8_with_bit(b: u8, k: int, v: bool) -> u8 {
    if v {
        b | (1u8 << (k as u8))
    } else {
        b & !(1u8 << (k as u8))
    }
}

impl RegView {
    /// Well-formedness: the pointer is in the datasheet's valid range and the
    /// length is fixed at one or two bytes. Established by construction and
    /// preserved by every operation.
    pub open spec fn wf(self) -> bool {
        &&& 1 <= self.ptr <= 8
        &&& (self.len == 1 || self.len == 2)
    }

    /// The stored word: both bytes big-endian when 2 bytes wide, the single
    /// byte zero-extended when 1 byte wide.
    pub open spec fn value(self) -> int {
        if self.len == 1 {
            self.msb as int
        } else {
            self.msb as int * 256 + self.lsb as int
        }
    }

    /// Bit `k` in datasheet numbering: bits 0..8 live in the last stored
    /// byte, bits 8..16 in the first.
    pub open spec fn bit(self, k: int) -> bool {
        if self.len == 1 {
            u8_bit(self.msb, k)
        } else if k < 8 {
            u8_bit(self.lsb, k)
        } else {
            u8_bit(self.msb, k - 8)
        }
    }

    /// The register after `set_bit(k, v)`: bit `k` set to `v` in the byte
    /// that holds it, everything else unchanged.
    pub open spec fn set_bit(self, k: int, v: bool) -> RegView {
        if self.len == 1 {
            RegView { msb: u8_with_bit(self.msb, k, v), ..self }
        } else if k < 8 {
            RegView { lsb: u8_with_bit(self.lsb, k, v), ..self }
        } else {
            RegView { msb: u8_with_bit(self.msb, k - 8, v), ..self }
        }
    }

    /// The register with its upper byte replaced.
    pub open spec fn with_msb(self, b: u8) -> RegView {
        RegView { msb: b, ..self }
    }

    /// The register with its lower byte replaced.
    pub open spec fn with_lsb(self, b: u8) -> RegView {
        RegView { lsb: b, ..self }
    }
}

impl View for Register {
    type V = RegView;

    closed spec fn view(&self) -> RegView {
        RegView { ptr: self.ptr, msb: self.msb, lsb: self.lsb, len: self.len }
    }
}

impl Register {
    /// A fresh, zero-filled register. The pointer must be one of the
    /// datasheet's register selectors (1..=8; 0 is reserved) and the length
    /// one or two bytes.
    pub fn new(ptr: u8, len: u8) -> (r: Self)
        requires
            1 <= ptr <= 8,
            len == 1 || len == 2,
        ensures
            r@ == (RegView { ptr, msb: 0, lsb: 0, len }),
            r@.wf(),
            r@.value() == 0,
    {
        Register { ptr, msb: 0, lsb: 0, len }
    }

    /// The stored bytes, first byte first, as many as the register is wide.
    pub fn get_buf(&self) -> (r: Vec<u8>)
        requires
            self@.wf(),
        ensures
            r@ == (if self@.len == 1 {
                seq![self@.msb]
            } else {
                seq![self@.msb, self@.lsb]
            }),
    {
        let mut v: Vec<u8> = Vec::new();
        v.push(self.msb);
        if self.len == 2 {
            v.push(self.lsb);
        }
        proof {
            if self@.len == 1 {
                assert(v@ =~= seq![self@.msb]);
            } else {
                assert(v@ =~= seq![self@.msb, self@.lsb]);
            }
        }
        v
    }

    /// Overwrite both data bytes at once, first byte first.
    pub fn set_buf(&mut self, val: [u8; 2])
        ensures
            final(self)@ == old(self)@.with_msb(val@[0]).with_lsb(val@[1]),
    {
        self.msb = val[0];
        self.lsb = val[1];
    }

    /// The register-pointer byte (read-only for the register's life).
    pub fn get_ptr(&self) -> (r: u8)
        ensures
            r == self@.ptr,
    {
        self.ptr
    }

    /// The fixed byte length.
    pub fn get_len(&self) -> (r: u8)
        ensures
            r == self@.len,
    {
        self.len
    }

    /// Lower byte, bits 0-7; unavailable when the register is one byte wide.
    pub fn get_lsb(&self) -> (r: Option<u8>)
        ensures
            r == (if self@.len < 2 {
                Option::<u8>::None
            } else {
                Option::Some(self@.lsb)
            }),
    {
        if self.len < 2 {
            return None;
        }
        Some(self.lsb)
    }

    /// Replace the lower byte.
    pub fn set_lsb(&mut self, val: u8)
        ensures
            final(self)@ == old(self)@.with_lsb(val),
    {
        self.lsb = val;
    }

    /// Upper byte, bits 8-15, always available.
    pub fn get_msb(&self) -> (r: u8)
        ensures
            r == self@.msb,
    {
        self.msb
    }

    /// Replace the upper byte.
    pub fn set_msb(&mut self, val: u8)
        ensures
            final(self)@ == old(self)@.with_msb(val),
    {
        self.msb = val;
    }

    /// Read one bit, in datasheet (LSb-first) numbering.
    pub fn get_bit(&self, offset: usize) -> (r: bool)
        requires
            self@.wf(),
            offset < self@.len * 8,
        ensures
            r == self@.bit(offset as int),
    {
        if self.len == 1 {
            return (self.msb >> offset) & 1 == 1;
        }

        if offset > 7 {
            (self.msb >> (offset - 8)) & 1 == 1
        } else {
            (self.lsb >> offset) & 1 == 1
        }
    }

    /// Write one bit, in datasheet (LSb-first) numbering; an offset at or
    /// past the register's width is an out-of-range access.
    pub fn set_bit(&mut self, offset: usize, val: bool)
        requires
            old(self)@.wf(),
            offset < old(self)@.len * 8,
        ensures
            final(self)@ == old(self)@.set_bit(offset as int, val),
            final(self)@.wf(),
    {
        if self.len == 1 {
            self.msb = if val {
                self.msb | (1u8 << offset)
            } else {
                self.msb & !(1u8 << offset)
            };
        } else if offset > 7 {
            self.msb = if val {
                self.msb | (1u8 << (offset - 8))
            } else {
                self.msb & !(1u8 << (offset - 8))
            };
        } else {
            self.lsb = if val {
                self.lsb | (1u8 << offset)
            } else {
                self.lsb & !(1u8 << offset)
            };
        }
    }

    /// Both bytes combined into an unsigned 16-bit value when 2 bytes wide;
    /// the single byte zero-extended when 1 byte wide.
    pub fn as_u16(&self) -> (r: u16)
        requires
            self@.wf(),
        ensures
            r as int == self@.value(),
    {
        if self.len < 2 {
            return self.msb as u16;
        }
        (self.msb as u16) * 256 + (self.lsb as u16)
    }
}

/// Setting a bit stores exactly that bit: reading it back yields the written
/// value, and no other bit of the register is disturbed.
pub proof fn lemma_set_bit_get_bit(r: RegView, k: int, v: bool)
    requires
        r.wf(),
        0 <= k < r.len * 8,
    ensures
        r.set_bit(k, v).wf(),
        r.set_bit(k, v).ptr == r.ptr,
        r.set_bit(k, v).len == r.len,
        r.set_bit(k, v).bit(k) == v,
        forall|j: int| 0 <= j < r.len * 8 && j != k ==> r.set_bit(k, v).bit(j) == r.bit(j),
{
    assert forall|j: int| 0 <= j < r.len * 8 && j != k implies r.set_bit(k, v).bit(j) == r.bit(
        j,
    ) by {
        if r.len == 1 {
            lemma_u8_with_bit(r.msb, k, v, j);
        } else if k < 8 {
            if j < 8 {
                lemma_u8_with_bit(r.lsb, k, v, j);
            }
        } else {
            if j >= 8 {
                lemma_u8_with_bit(r.msb, k - 8, v, j - 8);
            }
        }
    }
    if r.len == 1 {
        lemma_u8_with_bit(r.msb, k, v, k);
    } else if k < 8 {
        lemma_u8_with_bit(r.lsb, k, v, k);
    } else {
        lemma_u8_with_bit(r.msb, k - 8, v, k - 8);
    }
}

/// A freshly constructed register reads as zero: every bit is clear and the
/// combined word is 0.
pub proof fn lemma_fresh_register_reads_zero(r: RegView)
    requires
        r.wf(),
        r.msb == 0,
        r.lsb == 0,
    ensures
        r.value() == 0,
        forall|k: int| 0 <= k < r.len * 8 ==> !r.bit(k),
{
    assert forall|k: int| 0 <= k < r.len * 8 implies !r.bit(k) by {
        lemma_u8_bit_zero(if r.len == 2 && k >= 8 {
            k - 8
        } else {
            k
        });
    }
}

proof fn lemma_u8_bit_zero(k: int)
    requires
        0 <= k < 8,
    ensures
        !u8_bit(0, k),
{
    let ku = k as u8;
    assert(ku < 8 ==> (0u8 >> ku) & 1 != 1) by (bit_vector);
}

/// Bit-level behaviour of `u8_with_bit`: bit `k` becomes `v`, the others keep
/// their value.
proof fn lemma_u8_with_bit(b: u8, k: int, v: bool, j: int)
    requires
        0 <= k < 8,
        0 <= j < 8,
    ensures
        j == k ==> u8_bit(u8_with_bit(b, k, v), j) == v,
        j != k ==> u8_bit(u8_with_bit(b, k, v), j) == u8_bit(b, j),
{
    let ku = k as u8;
    let ju = j as u8;
    assert(ku < 8 && ju < 8 && ju == ku ==> ((b | (1u8 << ku)) >> ju) & 1 == 1) by (bit_vector);
    assert(ku < 8 && ju < 8 && ju == ku ==> ((b & !(1u8 << ku)) >> ju) & 1 != 1) by (bit_vector);
    assert(ku < 8 && ju < 8 && ju != ku ==> ((b | (1u8 << ku)) >> ju) & 1 == (b >> ju) & 1)
        by (bit_vector);
    assert(ku < 8 && ju < 8 && ju != ku ==> ((b & !(1u8 << ku)) >> ju) & 1 == (b >> ju) & 1)
        by (bit_vector);
}

} // verus!
