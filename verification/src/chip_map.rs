//! Bit fields of a register and the directory that names them.
//!
//! A field is a run of adjacent bits inside one byte-wide register. The
//! functions here say which bits a field covers, how its value is taken out
//! of a register byte and how a new value is put in without disturbing the
//! neighbouring bits.

use vstd::arithmetic::power2::{lemma2_to64, pow2};
use vstd::prelude::*;

verus! {

/// Bit `i` of a byte, counted from the least significant one.
pub open spec fn bit_of(byte: u8, i: u8) -> bool {
    (byte >> i) & 1 == 1
}

/// The bits of a register that a field of `bits` bits at `offset` covers.
pub open spec fn field_mask(offset: u8, bits: u8) -> u8 {
    ((((1u32 << bits) - 1) as u32) << offset) as u8
}

/// The largest value that fits in `bits` bits.
pub open spec fn field_max(bits: u8) -> u8 {
    (((1u32 << bits) - 1) as u32) as u8
}

/// The value that the field holds when the register holds `reg_val`.
pub open spec fn field_extract(offset: u8, bits: u8, reg_val: u8) -> u8 {
    (reg_val & field_mask(offset, bits)) >> offset
}

/// The register byte after `field_val` has been put into the field: the bits
/// of the field come from `field_val`, all others from `reg_val`.
pub open spec fn field_insert(offset: u8, bits: u8, reg_val: u8, field_val: u8) -> u8 {
    (reg_val & !field_mask(offset, bits)) | ((field_val << offset) & field_mask(offset, bits))
}

/// A named slice of one register.
#[derive(Clone, Copy, Debug, PartialEq, Eq, Structural)]
pub struct Field {
    /// Address of the register that holds the field.
    pub reg: u8,
    /// Position of the field's lowest bit, 0 to 7.
    pub offset: u8,
    /// Width of the field in bits, 1 to 8.
    pub bits: u8,
    /// Whether the device accepts writes to the field. The accessors do not
    /// enforce it: a caller that writes a read-only field gets whatever the
    /// device makes of the write.
    pub writable: bool,
}

impl Field {
    /// A field lies inside a single register.
    pub open spec fn wf(&self) -> bool {
        1 <= self.bits && self.offset + self.bits <= 8
    }

    /// The register bits that belong to the field.
    pub open spec fn spec_mask(&self) -> u8 {
        field_mask(self.offset, self.bits)
    }

    /// The largest value that the field can hold.
    pub open spec fn spec_max(&self) -> u8 {
        field_max(self.bits)
    }

    /// The value of the field in the register byte `reg_val`.
    pub open spec fn spec_extract(&self, reg_val: u8) -> u8 {
        field_extract(self.offset, self.bits, reg_val)
    }

    /// The register byte `reg_val` with the field set to `field_val`.
    pub open spec fn spec_insert(&self, reg_val: u8, field_val: u8) -> u8 {
        field_insert(self.offset, self.bits, reg_val, field_val)
    }

    /// Computes the mask of the field.
    pub fn mask(&self) -> (m: u8)
        requires
            self.wf(),
        ensures
            m == self.spec_mask(),
    {
        let offset = self.offset;
        let bits = self.bits;
        assert(((1u32 << bits) - 1) as u32 == (1u32 << bits) - 1 && (((1u32 << bits) - 1) as u32)
            << offset <= 0xff) by (bit_vector)
            requires
                1 <= bits,
                offset + bits <= 8,
        ;
        let low: u32 = (1u32 << bits) - 1;
        let wide: u32 = low << offset;
        wide as u8
    }

    /// Takes the field's value out of a register byte.
    pub fn extract(&self, reg_val: u8) -> (v: u8)
        requires
            self.wf(),
        ensures
            v == self.spec_extract(reg_val),
            v <= self.spec_max(),
    {
        let mask = self.mask();
        let offset = self.offset;
        let bits = self.bits;
        assert((reg_val & field_mask(offset, bits)) >> offset <= field_max(bits)) by (bit_vector)
            requires
                1 <= bits,
                offset + bits <= 8,
        ;
        (reg_val & mask) >> offset
    }

    /// Puts `field_val` into the field of a register byte and leaves the
    /// other bits as they are. Bits of `field_val` above the field's width
    /// are dropped.
    pub fn insert(&self, reg_val: u8, field_val: u8) -> (r: u8)
        requires
            self.wf(),
        ensures
            r == self.spec_insert(reg_val, field_val),
    {
        let mask = self.mask();
        let offset = self.offset;
        let cleared = reg_val & !mask;
        let inserted = (field_val << offset) & mask;
        cleared | inserted
    }
}

/// Reading a field gives the register byte divided by two to the power of
/// the offset, reduced modulo two to the power of the width.
pub proof fn lemma_extract_is_div_mod(f: Field, reg_val: u8)
    requires
        f.wf(),
    ensures
        f.spec_extract(reg_val) == (reg_val as nat / pow2(f.offset as nat)) % pow2(f.bits as nat),
        f.spec_max() == pow2(f.bits as nat) - 1,
{
    let offset = f.offset;
    let bits = f.bits;
    let lo: u32 = 1u32 << offset;
    let hi: u32 = 1u32 << bits;
    assert({
        &&& (reg_val & field_mask(offset, bits)) >> offset == (reg_val as u32 / lo) % hi
        &&& field_max(bits) == hi - 1
        &&& lo == (if offset == 0 { 1u32 } else if offset == 1 { 2u32 } else if offset == 2 { 4u32 }
            else if offset == 3 { 8u32 } else if offset == 4 { 16u32 } else if offset == 5 { 32u32 }
            else if offset == 6 { 64u32 } else { 128u32 })
        &&& hi == (if bits == 1 { 2u32 } else if bits == 2 { 4u32 } else if bits == 3 { 8u32 }
            else if bits == 4 { 16u32 } else if bits == 5 { 32u32 } else if bits == 6 { 64u32 }
            else if bits == 7 { 128u32 } else { 256u32 })
    }) by (bit_vector)
        requires
            1 <= bits,
            offset + bits <= 8,
            lo == 1u32 << offset,
            hi == 1u32 << bits,
    ;
    lemma2_to64();
}

/// What is written to a field is what is read from it afterwards: the low
/// `bits` bits of the value, which is the value itself when it fits.
pub proof fn lemma_write_then_read(f: Field, reg_val: u8, field_val: u8)
    requires
        f.wf(),
    ensures
        f.spec_extract(f.spec_insert(reg_val, field_val)) == field_val & f.spec_max(),
        field_val <= f.spec_max() ==> f.spec_extract(f.spec_insert(reg_val, field_val))
            == field_val,
{
    let offset = f.offset;
    let bits = f.bits;
    assert({
        &&& field_extract(offset, bits, field_insert(offset, bits, reg_val, field_val))
            == field_val & field_max(bits)
        &&& field_val <= field_max(bits) ==> field_val & field_max(bits) == field_val
    }) by (bit_vector)
        requires
            1 <= bits,
            offset + bits <= 8,
    ;
}

/// Writing a field changes no bit of the register outside the field, and
/// inside it the register takes the bits of the value.
pub proof fn lemma_write_keeps_other_bits(f: Field, reg_val: u8, field_val: u8, i: u8)
    requires
        f.wf(),
        i < 8,
    ensures
        !(f.offset <= i < f.offset + f.bits) ==> bit_of(f.spec_insert(reg_val, field_val), i)
            == bit_of(reg_val, i),
        f.offset <= i < f.offset + f.bits ==> bit_of(f.spec_insert(reg_val, field_val), i)
            == bit_of(field_val, (i - f.offset) as u8),
        bit_of(f.spec_mask(), i) == (f.offset <= i < f.offset + f.bits),
{
    let offset = f.offset;
    let bits = f.bits;
    let after = field_insert(offset, bits, reg_val, field_val);
    let mask = field_mask(offset, bits);
    let j: u8 = if offset <= i { (i - offset) as u8 } else { 0 };
    assert({
        &&& (i < offset || i >= offset + bits) ==> ((after >> i) & 1 == 1) == ((reg_val >> i) & 1
            == 1)
        &&& (offset <= i && i < offset + bits) ==> ((after >> i) & 1 == 1) == ((field_val >> j)
            & 1 == 1)
        &&& ((mask >> i) & 1 == 1) == (offset <= i && i < offset + bits)
    }) by (bit_vector)
        requires
            1 <= bits,
            offset + bits <= 8,
            i < 8,
            offset <= i ==> j == i - offset,
            after == field_insert(offset, bits, reg_val, field_val),
            mask == field_mask(offset, bits),
    ;
}

/// Two fields of one register that share no bit do not disturb each other:
/// a write to the first leaves the value of the second as it was.
pub proof fn lemma_write_keeps_disjoint_field(f: Field, g: Field, reg_val: u8, field_val: u8)
    requires
        f.wf(),
        g.wf(),
        f.offset + f.bits <= g.offset || g.offset + g.bits <= f.offset,
    ensures
        g.spec_extract(f.spec_insert(reg_val, field_val)) == g.spec_extract(reg_val),
{
    let fo = f.offset;
    let fb = f.bits;
    let go = g.offset;
    let gb = g.bits;
    assert(field_extract(go, gb, field_insert(fo, fb, reg_val, field_val)) == field_extract(
        go,
        gb,
        reg_val,
    )) by (bit_vector)
        requires
            1 <= fb,
            fo + fb <= 8,
            1 <= gb,
            go + gb <= 8,
            fo + fb <= go || go + gb <= fo,
    ;
}

/// A directory of the fields of one device type, by name.
///
/// Names are matched exactly and with regard to case. A name that the
/// directory does not hold has no field: there is no default.
pub trait FieldMapProvider {
    /// The field that the directory holds under `name`, if any.
    spec fn lookup(name: Seq<char>) -> Option<Field>;

    /// Every field of the directory lies inside its register.
    proof fn lemma_lookup_wf(name: Seq<char>)
        ensures
            Self::lookup(name) matches Some(f) ==> f.wf(),
    ;

    /// Looks `name` up. An unknown name gives `None`, never a field.
    fn get_field(name: &str) -> (r: Option<&'static Field>)
        ensures
            r matches Some(f) ==> Self::lookup(name@) == Some(*f),
            r is None ==> Self::lookup(name@) is None,
    ;
}

/// The directory of a device whose fields are not known by name. It holds
/// nothing, so such a device is reached by register address only.
#[derive(Clone, Copy, Debug)]
pub struct NoFieldMap;

impl FieldMapProvider for NoFieldMap {
    open spec fn lookup(name: Seq<char>) -> Option<Field> {
        None
    }

    proof fn lemma_lookup_wf(name: Seq<char>) {
    }

    fn get_field(name: &str) -> (r: Option<&'static Field>) {
        None
    }
}

} // verus!
