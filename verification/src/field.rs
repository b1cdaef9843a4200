//! Bit fields of an 8-bit register.
//!
//! A [`Field`] names a contiguous run of bits by its offset and width. Reading,
//! testing and replacing the bits of a field is done by `tock_registers`; the
//! three calls into it are the only unverified code of this module, and each
//! states the one-line formula that the call computes. Everything else, down
//! to the statement that replacing a field leaves every other bit alone, is
//! proved from those formulas.

use vstd::prelude::*;
use vstd::arithmetic::power2::{lemma2_to64, pow2};
use vstd::bits::{
    lemma_low_bits_mask_values, lemma_u8_low_bits_mask_is_mod, lemma_u8_shr_is_div, low_bits_mask,
};
use core::marker::PhantomData;
use tock_registers::LocalRegisterCopy;

verus! {

/// A named, contiguous bit range within the register `REG`.
pub struct Field<REG> {
    /// Position of the field's least significant bit within the byte.
    pub offset: u8,
    /// Number of bits in the field.
    pub width: u8,
    /// Ties the field to its register, so that it cannot be applied to a
    /// value of another one.
    pub register: PhantomData<REG>,
}

/// Whether bit `index` of `byte` is set; bit 0 is the least significant.
pub open spec fn bit_of(byte: u8, index: u8) -> bool {
    (byte >> index) & 1 == 1
}

/// Reads a field out of a register copy with
/// `tock_registers::LocalRegisterCopy::read`. `mask` is the field's mask
/// before shifting, as `tock_registers::fields::Field::new` takes it. The
/// call keeps the bits of `value` under the shifted mask and moves them down
/// to bit 0. `shift` stays below 8 because the crate shifts a `u8` by it.
#[verifier::external_body]
fn local_read(value: u8, mask: u8, shift: u8) -> (bits: u8)
    requires
        shift < 8,
    ensures
        bits == (value & (mask << shift)) >> shift,
{
    LocalRegisterCopy::<u8, ()>::new(value).read(
        tock_registers::fields::Field::new(mask, shift as usize),
    )
}

/// Tests a field of a register copy with
/// `tock_registers::LocalRegisterCopy::is_set`: whether any bit of `value`
/// under the shifted mask is set.
#[verifier::external_body]
fn local_is_set(value: u8, mask: u8, shift: u8) -> (set: bool)
    requires
        shift < 8,
    ensures
        set == (value & (mask << shift) != 0),
{
    LocalRegisterCopy::<u8, ()>::new(value).is_set(
        tock_registers::fields::Field::new(mask, shift as usize),
    )
}

/// Replaces a field of a register copy with
/// `tock_registers::LocalRegisterCopy::modify`, handing it the value that
/// `tock_registers::fields::Field::val` builds from `bits`. The call clears
/// the bits of `value` under the shifted mask and puts there the bits of
/// `bits` under the unshifted mask, moved up by `shift`.
#[verifier::external_body]
fn local_modify(value: u8, mask: u8, shift: u8, bits: u8) -> (modified: u8)
    requires
        shift < 8,
    ensures
        modified == (value & !(mask << shift)) | ((bits & mask) << shift),
{
    let mut copy = LocalRegisterCopy::<u8, ()>::new(value);
    copy.modify(tock_registers::fields::Field::<u8, ()>::new(mask, shift as usize).val(bits));
    copy.get()
}

impl<REG> Field<REG> {
    /// The field of `width` bits whose lowest bit is bit `offset`.
    pub open spec fn at(offset: u8, width: u8) -> Self {
        Field { offset, width, register: PhantomData }
    }

    /// A field has at least one bit and ends within the byte.
    pub open spec fn well_formed(self) -> bool {
        0 < self.width && self.offset + self.width <= 8
    }

    /// Whether bit `index` of the register belongs to the field.
    pub open spec fn covers(self, index: u8) -> bool {
        self.offset <= index < self.offset + self.width
    }

    /// Two fields are disjoint when one ends before the other begins.
    pub open spec fn disjoint(self, other: Self) -> bool {
        self.offset + self.width <= other.offset || other.offset + other.width <= self.offset
    }

    /// The largest value that fits the field: `width` one bits.
    pub open spec fn max_value(self) -> u8 {
        0xffu8 >> ((8 - self.width) as u8)
    }

    /// The bits of the register byte that make up the field.
    pub open spec fn mask(self) -> u8 {
        self.max_value() << self.offset
    }

    /// The field's value in the register byte `byte`.
    pub open spec fn read_spec(self, byte: u8) -> u8 {
        (byte & self.mask()) >> self.offset
    }

    /// Whether any bit of the field is set in `byte`.
    pub open spec fn is_set_spec(self, byte: u8) -> bool {
        byte & self.mask() != 0
    }

    /// `byte` with the field replaced by the low `width` bits of `bits`.
    pub open spec fn modify_spec(self, byte: u8, bits: u8) -> u8 {
        (byte & !self.mask()) | ((bits & self.max_value()) << self.offset)
    }

    /// Makes the field of `width` bits whose lowest bit is bit `offset`.
    pub fn new(offset: u8, width: u8) -> (field: Self)
        requires
            0 < width,
            offset + width <= 8,
        ensures
            field == Self::at(offset, width),
            field.well_formed(),
    {
        Field { offset, width, register: PhantomData }
    }

    /// The largest value that fits the field.
    pub fn max(&self) -> (max: u8)
        requires
            self.well_formed(),
        ensures
            max == self.max_value(),
    {
        0xffu8 >> (8 - self.width)
    }

    /// Extracts the field's value from `byte`.
    pub fn read(&self, byte: u8) -> (bits: u8)
        requires
            self.well_formed(),
        ensures
            bits == self.read_spec(byte),
            bits <= self.max_value(),
    {
        proof {
            self.lemma_read_fits(byte);
        }
        local_read(byte, self.max(), self.offset)
    }

    /// Tells whether any bit of the field is set in `byte`.
    pub fn is_set(&self, byte: u8) -> (set: bool)
        requires
            self.well_formed(),
        ensures
            set == self.is_set_spec(byte),
    {
        local_is_set(byte, self.max(), self.offset)
    }

    /// Returns `byte` with the field set to `bits`; bits of `bits` above the
    /// field's width are dropped.
    pub fn modify(&self, byte: u8, bits: u8) -> (modified: u8)
        requires
            self.well_formed(),
        ensures
            modified == self.modify_spec(byte, bits),
    {
        local_modify(byte, self.max(), self.offset, bits)
    }

    /// The largest value of a field, width by width.
    pub proof fn lemma_max_value(self)
        requires
            self.well_formed(),
        ensures
            self.max_value() == match self.width {
                1 => 0x01u8,
                2 => 0x03u8,
                3 => 0x07u8,
                4 => 0x0fu8,
                5 => 0x1fu8,
                6 => 0x3fu8,
                7 => 0x7fu8,
                _ => 0xffu8,
            },
    {
        let s: u8 = (8 - self.width) as u8;
        assert(s < 8 ==> 0xffu8 >> s == match s {
            7 => 0x01u8,
            6 => 0x03u8,
            5 => 0x07u8,
            4 => 0x0fu8,
            3 => 0x1fu8,
            2 => 0x3fu8,
            1 => 0x7fu8,
            _ => 0xffu8,
        }) by (bit_vector);
    }

    /// What is read from a field fits its width.
    pub proof fn lemma_read_fits(self, byte: u8)
        requires
            self.well_formed(),
        ensures
            self.read_spec(byte) <= self.max_value(),
    {
        let low = self.max_value();
        let o = self.offset;
        assert((byte & (low << o)) >> o <= low) by (bit_vector)
            requires
                o < 8,
        ;
    }

    /// In numbers: the field's value is the byte divided by two to the
    /// offset, modulo two to the width.
    pub proof fn lemma_read_is_div_mod(self, byte: u8)
        requires
            self.well_formed(),
        ensures
            self.read_spec(byte) == (byte as nat / pow2(self.offset as nat)) % pow2(
                self.width as nat,
            ),
    {
        let o = self.offset;
        let w = self.width;
        let s: u8 = (8 - w) as u8;
        let shifted = byte >> o;
        let low = self.max_value();
        assert((byte & ((0xffu8 >> s) << o)) >> o == (byte >> o) & (0xffu8 >> s)) by (bit_vector)
            requires
                s < 8,
                o + (8 - s) <= 8,
        ;
        assert(self.read_spec(byte) == shifted & low);
        lemma_u8_shr_is_div(byte, o);
        assert(shifted == byte as nat / pow2(o as nat));
        lemma2_to64();
        if w < 8 {
            self.lemma_max_value();
            lemma_low_bits_mask_values();
            assert(low == low_bits_mask(w as nat) as u8);
            lemma_u8_low_bits_mask_is_mod(shifted, w as nat);
            assert(shifted & low == shifted as nat % pow2(w as nat));
        } else {
            assert(shifted & 0xffu8 == shifted) by (bit_vector);
            assert(low == 0xffu8) by {
                self.lemma_max_value();
            }
            assert(shifted as nat % pow2(8) == shifted);
        }
    }

    /// The mask has exactly the bits that the field covers.
    pub proof fn lemma_mask_covers(self, index: u8)
        requires
            self.well_formed(),
            index < 8,
        ensures
            bit_of(self.mask(), index) == self.covers(index),
    {
        let o = self.offset;
        let s: u8 = (8 - self.width) as u8;
        assert(((((0xffu8 >> s) << o) >> index) & 1 == 1) == (o <= index && index < o + (8 - s)))
            by (bit_vector)
            requires
                s < 8,
                o + (8 - s) <= 8,
                index < 8,
        ;
    }

    /// A field that was just set reads back as the value it was set to, cut
    /// to the field's width.
    pub proof fn lemma_read_after_modify(self, byte: u8, bits: u8)
        requires
            self.well_formed(),
        ensures
            self.read_spec(self.modify_spec(byte, bits)) == bits & self.max_value(),
            bits <= self.max_value() ==> self.read_spec(self.modify_spec(byte, bits)) == bits,
    {
        let o = self.offset;
        let s: u8 = (8 - self.width) as u8;
        assert((((byte & !((0xffu8 >> s) << o)) | ((bits & (0xffu8 >> s)) << o)) & ((0xffu8 >> s)
            << o)) >> o == bits & (0xffu8 >> s)) by (bit_vector)
            requires
                s < 8,
                o + (8 - s) <= 8,
        ;
        assert(bits <= (0xffu8 >> s) ==> bits & (0xffu8 >> s) == bits) by (bit_vector);
    }

    /// Setting a field changes no bit outside it.
    pub proof fn lemma_modify_keeps_other_bits(self, byte: u8, bits: u8, index: u8)
        requires
            self.well_formed(),
            index < 8,
            !self.covers(index),
        ensures
            bit_of(self.modify_spec(byte, bits), index) == bit_of(byte, index),
    {
        self.lemma_mask_covers(index);
        let low = self.max_value();
        let o = self.offset;
        assert((((low << o) >> index) & 1 != 1) ==> (((((byte & !(low << o)) | ((bits & low) << o))
            >> index) & 1 == 1) == ((byte >> index) & 1 == 1))) by (bit_vector)
            requires
                index < 8,
                o < 8,
        ;
    }

    /// Setting a field leaves every field disjoint from it as it was.
    pub proof fn lemma_modify_keeps_disjoint_field(self, other: Self, byte: u8, bits: u8)
        requires
            self.well_formed(),
            other.well_formed(),
            self.disjoint(other),
        ensures
            other.read_spec(self.modify_spec(byte, bits)) == other.read_spec(byte),
            other.is_set_spec(self.modify_spec(byte, bits)) == other.is_set_spec(byte),
    {
        let o = self.offset;
        let s: u8 = (8 - self.width) as u8;
        let p = other.offset;
        let t: u8 = (8 - other.width) as u8;
        assert(((byte & !((0xffu8 >> s) << o)) | ((bits & (0xffu8 >> s)) << o)) & ((0xffu8 >> t)
            << p) == byte & ((0xffu8 >> t) << p)) by (bit_vector)
            requires
                s < 8,
                t < 8,
                o + (8 - s) <= 8,
                p + (8 - t) <= 8,
                o + (8 - s) <= p || p + (8 - t) <= o,
        ;
    }
}

} // verus!
