//! Register and bit-field access to one device on a shared serial bus.
//!
//! A [`Chip`] holds a transport, the bus address of its device and, as a
//! type, the directory of the device's named fields. Every operation is a
//! single request and response over the transport, or two of them for a
//! field write: the register is read, the field's bits are replaced, and the
//! byte is written back. The transport keeps other users of the bus out for
//! the length of one transfer, no longer: a field write is not atomic towards
//! another owner of the same register, so one owner drives one device.

use core::marker::PhantomData;
use embassy_nrf::twim::Error as TwimError;
use vstd::prelude::*;
use vstd::std_specs::convert::FromSpecImpl;

use crate::chip_map::{
    field_insert, field_mask, lemma_write_then_read, Field, FieldMapProvider, NoFieldMap,
};

verus! {

/// The error type of the two-wire bus driver, `embassy_nrf::twim::Error`. It
/// is carried from the transport to the caller and never looked into.
#[verifier::external_type_specification]
#[verifier::external_body]
pub struct ExTwimError(embassy_nrf::twim::Error);

/// Why an access failed.
#[derive(Debug)]
pub enum I2CError {
    /// The directory holds no field of the name asked for.
    NotFound,
    /// The transfer failed on the bus.
    I2CError(TwimError),
}

impl From<TwimError> for I2CError {
    fn from(err: TwimError) -> (e: Self) {
        I2CError::I2CError(err)
    }
}

impl FromSpecImpl<TwimError> for I2CError {
    open spec fn obeys_from_spec() -> bool {
        true
    }

    open spec fn from_spec(err: TwimError) -> Self {
        I2CError::I2CError(err)
    }
}

/// The error of a result, if it is one.
pub open spec fn failure_of<T, E>(r: Result<T, E>) -> Option<E> {
    match r {
        Ok(_) => None,
        Err(e) => Some(e),
    }
}

/// The byte-transfer capability that the accessors consume.
///
/// An implementation serialises all transfers on its bus. What a transfer
/// gives depends on the device and the wires, so the two relations below are
/// left open: by default every outcome is possible, and the clauses of the
/// two methods then ask nothing of an implementation. They serve to say, in
/// the accessors' contracts, which transfer an accessor made and what it did
/// with the outcome.
pub trait I2CProvider {
    /// Whether a read that starts at register `reg` of the device at
    /// `i2c_address`, into a buffer that held `before`, may leave `after` in
    /// the buffer and succeed (`failure` is `None`) or fail with the error in
    /// `failure`.
    open spec fn read_outcome(
        &self,
        i2c_address: u8,
        reg: u8,
        before: Seq<u8>,
        after: Seq<u8>,
        failure: Option<I2CError>,
    ) -> bool {
        true
    }

    /// Whether a write of `reg_val` to register `reg` of the device at
    /// `i2c_address` may succeed (`failure` is `None`) or fail with the
    /// error in `failure`.
    open spec fn write_outcome(
        &self,
        i2c_address: u8,
        reg: u8,
        reg_val: u8,
        failure: Option<I2CError>,
    ) -> bool {
        true
    }

    /// Sends the register address `reg` and reads as many bytes as
    /// `reg_vals` holds, from that register on. The buffer keeps its length,
    /// as any slice behind a mutable reference does.
    fn write_read(&self, i2c_address: u8, reg: u8, reg_vals: &mut [u8]) -> (r: Result<
        (),
        I2CError,
    >)
        ensures
            final(reg_vals)@.len() == old(reg_vals)@.len(),
            self.read_outcome(i2c_address, reg, old(reg_vals)@, final(reg_vals)@, failure_of(r)),
    ;

    /// Writes the byte `reg_val` to register `reg`.
    fn write(&self, i2c_address: u8, reg: u8, reg_val: u8) -> (r: Result<(), I2CError>)
        ensures
            self.write_outcome(i2c_address, reg, reg_val, failure_of(r)),
    ;
}

/// What a single-register read makes of the outcome of the transfer: the
/// byte that arrived, or the transfer's error.
pub open spec fn reg_read_result(after: Seq<u8>, failure: Option<I2CError>) -> Result<
    u8,
    I2CError,
> {
    match failure {
        None => Ok(after[0]),
        Some(e) => Err(e),
    }
}

/// What a field read makes of the outcome of reading the field's register.
pub open spec fn field_read_result(f: Field, raw: Result<u8, I2CError>) -> Result<u8, I2CError> {
    match raw {
        Ok(reg_val) => Ok(f.spec_extract(reg_val)),
        Err(e) => Err(e),
    }
}

/// One device on the bus, with the directory `MAP` of its fields.
pub struct Chip<I2C, MAP = NoFieldMap> {
    /// The transport, shared with the other devices on the bus.
    pub i2c: I2C,
    /// The device's bus address.
    pub i2c_addr: u8,
    pub _map: PhantomData<MAP>,
}

impl<I2C> Chip<I2C, NoFieldMap> {
    /// A device that is reached by register address only.
    pub fn new_generic(i2c: I2C, i2c_addr: u8) -> (chip: Self)
        ensures
            chip.i2c == i2c,
            chip.i2c_addr == i2c_addr,
    {
        Self { i2c, i2c_addr, _map: PhantomData }
    }
}

impl<I2C: I2CProvider, MAP> Chip<I2C, MAP> {
    /// A read of the device's registers from `reg` on may change the buffer
    /// from `before` to `after` and succeed, or fail with `failure`.
    pub open spec fn may_read_regs(
        &self,
        reg: u8,
        before: Seq<u8>,
        after: Seq<u8>,
        failure: Option<I2CError>,
    ) -> bool {
        self.i2c.read_outcome(self.i2c_addr, reg, before, after, failure)
    }

    /// A write of `reg_val` to the device's register `reg` may succeed, or
    /// fail with `failure`.
    pub open spec fn may_write_reg(&self, reg: u8, reg_val: u8, failure: Option<I2CError>) -> bool {
        self.i2c.write_outcome(self.i2c_addr, reg, reg_val, failure)
    }

    /// A read of the single register `reg` may end in `r`: some one-byte
    /// transfer into a zeroed buffer has that byte, or that error, as its
    /// outcome.
    pub open spec fn may_read_reg(&self, reg: u8, r: Result<u8, I2CError>) -> bool {
        exists|after: Seq<u8>, failure: Option<I2CError>|
            after.len() == 1 && #[trigger] self.may_read_regs(reg, seq![0u8], after, failure) && r
                == reg_read_result(after, failure)
    }

    /// No transfer to the device can fail: the transport's relations admit
    /// no failure of a read or a write at the device's address.
    pub open spec fn bus_never_fails(&self) -> bool {
        &&& forall|reg: u8, before: Seq<u8>, after: Seq<u8>, e: I2CError|
            !#[trigger] self.may_read_regs(reg, before, after, Some(e))
        &&& forall|reg: u8, reg_val: u8, e: I2CError|
            !#[trigger] self.may_write_reg(reg, reg_val, Some(e))
    }

    /// Reads as many consecutive registers as `reg_values` holds, starting
    /// at `reg`.
    pub fn read_regs(&self, reg: u8, reg_values: &mut [u8]) -> (r: Result<(), I2CError>)
        ensures
            self.may_read_regs(reg, old(reg_values)@, final(reg_values)@, failure_of(r)),
            final(reg_values)@.len() == old(reg_values)@.len(),
    {
        self.i2c.write_read(self.i2c_addr, reg, reg_values)
    }

    /// Writes one register.
    pub fn write_reg(&self, reg: u8, reg_val: u8) -> (r: Result<(), I2CError>)
        ensures
            self.may_write_reg(reg, reg_val, failure_of(r)),
    {
        self.i2c.write(self.i2c_addr, reg, reg_val)
    }

    /// Reads one register.
    pub fn read_reg(&self, reg: u8) -> (r: Result<u8, I2CError>)
        ensures
            self.may_read_reg(reg, r),
    {
        let mut reg_vals = [0u8];
        let ghost before = reg_vals@;
        let raw = self.read_regs(reg, &mut reg_vals);
        proof {
            assert(before =~= seq![0u8]);
            assert(self.may_read_regs(reg, seq![0u8], reg_vals@, failure_of(raw)));
        }
        match raw {
            Ok(_) => Ok(reg_vals[0]),
            Err(e) => Err(e),
        }
    }
}

impl<I2C: I2CProvider, MAP: FieldMapProvider> Chip<I2C, MAP> {
    /// A read of the field `name` may end in `r`. A name that the directory
    /// lacks gives `NotFound` and no transfer. Otherwise the field's register
    /// is read, and the result is the field's part of the byte that arrived,
    /// or the transfer's error.
    pub open spec fn may_read_field(&self, name: Seq<char>, r: Result<u8, I2CError>) -> bool {
        match MAP::lookup(name) {
            None => r == Err::<u8, I2CError>(I2CError::NotFound),
            Some(f) => exists|raw: Result<u8, I2CError>| #[trigger]
                self.may_read_reg(f.reg, raw) && r == field_read_result(f, raw),
        }
    }

    /// A write of `field_val` to the field `name` may succeed, or fail with
    /// `failure`. A name that the directory lacks gives `NotFound` and no
    /// transfer. Otherwise the field's register is read; if that fails, its
    /// error is the result and nothing is written; if it gives a byte, that
    /// byte with the field's bits replaced is written to the same register,
    /// and the outcome of the write is the result.
    pub open spec fn may_write_field(
        &self,
        name: Seq<char>,
        field_val: u8,
        failure: Option<I2CError>,
    ) -> bool {
        match MAP::lookup(name) {
            None => failure == Some(I2CError::NotFound),
            Some(f) => exists|raw: Result<u8, I2CError>| #[trigger]
                self.may_read_reg(f.reg, raw) && match raw {
                    Ok(reg_val) => self.may_write_reg(
                        f.reg,
                        f.spec_insert(reg_val, field_val),
                        failure,
                    ),
                    Err(e) => failure == Some(e),
                },
        }
    }

    /// A read of consecutive registers, from the register of the field
    /// `name` on, may change the buffer from `before` to `after` and succeed,
    /// or fail with `failure`. A name that the directory lacks gives
    /// `NotFound`, no transfer and an unchanged buffer.
    pub open spec fn may_read_regs_str(
        &self,
        name: Seq<char>,
        before: Seq<u8>,
        after: Seq<u8>,
        failure: Option<I2CError>,
    ) -> bool {
        match MAP::lookup(name) {
            None => failure == Some(I2CError::NotFound) && after == before,
            Some(f) => self.may_read_regs(f.reg, before, after, failure),
        }
    }

    /// Reads consecutive registers, starting at the register of the field
    /// `reg_str`.
    pub fn read_regs_str(&self, reg_str: &str, reg_values: &mut [u8]) -> (r: Result<(), I2CError>)
        ensures
            final(reg_values)@.len() == old(reg_values)@.len(),
            self.may_read_regs_str(reg_str@, old(reg_values)@, final(reg_values)@, failure_of(r)),
            MAP::lookup(reg_str@) is None ==> failure_of(r) == Some(I2CError::NotFound),
    {
        match MAP::get_field(reg_str) {
            None => Err(I2CError::NotFound),
            Some(reg_dets) => self.read_regs(reg_dets.reg, reg_values),
        }
    }

    /// Reads the whole register of the field `reg_str`.
    pub fn read_reg_str(&self, reg_str: &str) -> (r: Result<u8, I2CError>)
        ensures
            match MAP::lookup(reg_str@) {
                None => r == Err::<u8, I2CError>(I2CError::NotFound),
                Some(f) => self.may_read_reg(f.reg, r),
            },
    {
        match MAP::get_field(reg_str) {
            None => Err(I2CError::NotFound),
            Some(reg_dets) => self.read_reg(reg_dets.reg),
        }
    }

    /// Writes the whole register of the field `reg_str`.
    pub fn write_reg_str(&self, reg_str: &str, reg_val: u8) -> (r: Result<(), I2CError>)
        ensures
            match MAP::lookup(reg_str@) {
                None => failure_of(r) == Some(I2CError::NotFound),
                Some(f) => self.may_write_reg(f.reg, reg_val, failure_of(r)),
            },
    {
        match MAP::get_field(reg_str) {
            None => Err(I2CError::NotFound),
            Some(reg_dets) => self.write_reg(reg_dets.reg, reg_val),
        }
    }

    /// Reads the field `field`.
    pub fn read_field(&self, field: &str) -> (r: Result<u8, I2CError>)
        ensures
            self.may_read_field(field@, r),
            MAP::lookup(field@) is None ==> r == Err::<u8, I2CError>(I2CError::NotFound),
            r matches Ok(v) ==> MAP::lookup(field@) matches Some(f) && v <= f.spec_max(),
    {
        match MAP::get_field(field) {
            None => Err(I2CError::NotFound),
            Some(field_dets) => {
                proof {
                    MAP::lemma_lookup_wf(field@);
                }
                match self.read_reg(field_dets.reg) {
                    Ok(reg_val) => Ok(field_dets.extract(reg_val)),
                    Err(e) => Err(e),
                }
            },
        }
    }

    /// Writes `field_val` to the field `field` and leaves the other bits of
    /// its register as the device last reported them. Whether the field is
    /// marked writable is not looked at.
    pub fn write_field(&self, field: &str, field_val: u8) -> (r: Result<(), I2CError>)
        ensures
            self.may_write_field(field@, field_val, failure_of(r)),
            MAP::lookup(field@) is None ==> failure_of(r) == Some(I2CError::NotFound),
            r is Ok ==> MAP::lookup(field@) is Some,
    {
        match MAP::get_field(field) {
            None => Err(I2CError::NotFound),
            Some(field_dets) => {
                proof {
                    MAP::lemma_lookup_wf(field@);
                }
                match self.read_reg(field_dets.reg) {
                    Ok(curr_val) => self.write_reg(
                        field_dets.reg,
                        field_dets.insert(curr_val, field_val),
                    ),
                    Err(e) => Err(e),
                }
            },
        }
    }
}

/// Write, then read: on a device whose register gives back the byte that was
/// written to it, a field read after a field write returns the value
/// written, if the value fits the field, and the bits of the register
/// outside the field are those that the write found there.
pub proof fn lemma_field_write_then_read(f: Field, found: u8, field_val: u8)
    requires
        f.wf(),
        field_val <= f.spec_max(),
    ensures
        field_read_result(f, Ok(f.spec_insert(found, field_val))) == Ok::<u8, I2CError>(field_val),
        f.spec_insert(found, field_val) & !f.spec_mask() == found & !f.spec_mask(),
{
    lemma_write_then_read(f, found, field_val);
    let offset = f.offset;
    let bits = f.bits;
    assert(field_insert(offset, bits, found, field_val) & !field_mask(offset, bits) == found
        & !field_mask(offset, bits)) by (bit_vector);
}

/// On a bus that cannot fail, no read of a register fails.
pub proof fn lemma_read_reg_cannot_fail<I2C: I2CProvider, MAP>(
    chip: Chip<I2C, MAP>,
    reg: u8,
    e: I2CError,
)
    requires
        chip.bus_never_fails(),
    ensures
        !chip.may_read_reg(reg, Err(e)),
{
}

/// On a bus that cannot fail, an access by a name that the directory holds
/// does not fail: not a field read, not a field write, not a read of
/// consecutive registers.
pub proof fn lemma_known_name_cannot_fail<I2C: I2CProvider, MAP: FieldMapProvider>(
    chip: Chip<I2C, MAP>,
    name: Seq<char>,
    e: I2CError,
)
    requires
        chip.bus_never_fails(),
        MAP::lookup(name) is Some,
    ensures
        !chip.may_read_field(name, Err(e)),
        forall|field_val: u8| !#[trigger] chip.may_write_field(name, field_val, Some(e)),
        forall|before: Seq<u8>, after: Seq<u8>|
            !#[trigger] chip.may_read_regs_str(name, before, after, Some(e)),
{
    let f = MAP::lookup(name)->Some_0;
    lemma_read_reg_cannot_fail(chip, f.reg, e);
}

/// An access by a name that the directory lacks can only end in `NotFound`,
/// whatever the bus does.
pub proof fn lemma_unknown_name_is_not_found<I2C: I2CProvider, MAP: FieldMapProvider>(
    chip: Chip<I2C, MAP>,
    name: Seq<char>,
)
    requires
        MAP::lookup(name) is None,
    ensures
        forall|r: Result<u8, I2CError>| #[trigger]
            chip.may_read_field(name, r) <==> r == Err::<u8, I2CError>(I2CError::NotFound),
        forall|field_val: u8, failure: Option<I2CError>| #[trigger]
            chip.may_write_field(name, field_val, failure) <==> failure == Some(I2CError::NotFound),
{
}

} // verus!
