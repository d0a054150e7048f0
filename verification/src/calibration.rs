//! From the sensor's calibration registers to its coefficients.
//!
//! The factory stores each coefficient in one or two registers. A 16-bit
//! coefficient lies low byte first; a signed one is in two's complement.
//! The first two humidity coefficients are 12 bits wide and share the
//! register `0xe2`, a nibble each.

use vstd::prelude::*;

use crate::bme680::CalCodes;

verus! {

/// The number that a byte stands for in two's complement.
pub open spec fn spec_i8_from_byte(b: u8) -> int {
    if b >= 128 {
        b - 256
    } else {
        b as int
    }
}

/// The unsigned 16-bit number with low byte `lo` and high byte `hi`.
pub open spec fn spec_u16_from_le(lo: u8, hi: u8) -> int {
    lo + 256 * hi
}

/// The number that the two bytes stand for in two's complement.
pub open spec fn spec_i16_from_le(lo: u8, hi: u8) -> int {
    if hi >= 128 {
        lo + 256 * hi - 65536
    } else {
        lo + 256 * hi
    }
}

/// The first humidity coefficient: its low four bits are the low nibble of
/// the shared register, its high eight bits the register after it.
pub open spec fn spec_par_h1(shared: u8, msb: u8) -> int {
    shared % 16 + 16 * msb
}

/// The second humidity coefficient: its high eight bits are the register
/// before the shared one, its low four bits the shared register's high
/// nibble.
pub open spec fn spec_par_h2(msb: u8, shared: u8) -> int {
    16 * msb + shared / 16
}

pub fn i8_from_byte(b: u8) -> (v: i8)
    ensures
        v == spec_i8_from_byte(b),
{
    assert(b as i8 == (if b >= 128 { b - 256 } else { b as int })) by (bit_vector);
    b as i8
}

pub fn u16_from_le(lo: u8, hi: u8) -> (v: u16)
    ensures
        v == spec_u16_from_le(lo, hi),
{
    assert((lo as u16) | ((hi as u16) << 8) == lo + 256 * hi) by (bit_vector);
    (lo as u16) | ((hi as u16) << 8)
}

pub fn i16_from_le(lo: u8, hi: u8) -> (v: i16)
    ensures
        v == spec_i16_from_le(lo, hi),
{
    assert(((lo as i16) | ((hi as i16) << 8)) == (if hi >= 128 {
        lo + 256 * hi - 65536
    } else {
        lo + 256 * hi
    })) by (bit_vector);
    (lo as i16) | ((hi as i16) << 8)
}

pub fn par_h1_from(shared: u8, msb: u8) -> (v: u16)
    ensures
        v == spec_par_h1(shared, msb),
{
    assert((((shared & 0x0F) as u16) | ((msb as u16) << 4)) == shared % 16 + 16 * msb)
        by (bit_vector);
    ((shared & 0x0F) as u16) | ((msb as u16) << 4)
}

pub fn par_h2_from(msb: u8, shared: u8) -> (v: u16)
    ensures
        v == spec_par_h2(msb, shared),
{
    assert((((msb as u16) << 4) | ((shared as u16) >> 4)) == 16 * msb + shared / 16)
        by (bit_vector);
    ((msb as u16) << 4) | ((shared as u16) >> 4)
}

/// The bytes of the calibration registers, in the order in which the driver
/// reads them.
#[derive(Clone, Copy, Debug)]
pub struct CalRegisters {
    pub t1_lsb: u8,
    pub t1_msb: u8,
    pub t2_lsb: u8,
    pub t2_msb: u8,
    pub t3: u8,
    pub p1_lsb: u8,
    pub p1_msb: u8,
    pub p2_lsb: u8,
    pub p2_msb: u8,
    pub p3: u8,
    pub p4_lsb: u8,
    pub p4_msb: u8,
    pub p5_lsb: u8,
    pub p5_msb: u8,
    pub p6: u8,
    pub p7: u8,
    pub p8_lsb: u8,
    pub p8_msb: u8,
    pub p9_lsb: u8,
    pub p9_msb: u8,
    pub p10: u8,
    /// The register `0xe2`, as read for the first humidity coefficient.
    pub h1_shared: u8,
    pub h1_msb: u8,
    pub h2_msb: u8,
    /// The register `0xe2`, as read for the second humidity coefficient.
    pub h2_shared: u8,
    pub h3: u8,
    pub h4: u8,
    pub h5: u8,
    pub h6: u8,
    pub h7: u8,
    pub g1: u8,
    pub g2_lsb: u8,
    pub g2_msb: u8,
    pub g3: u8,
}

/// The number of reads that fetch the calibration, one register each.
pub const CAL_READS: usize = 34;

/// The calibration registers whose bytes are `bytes`, in the order in which
/// the driver reads them.
pub open spec fn cal_registers(bytes: Seq<u8>) -> CalRegisters {
    CalRegisters {
        t1_lsb: bytes[0],
        t1_msb: bytes[1],
        t2_lsb: bytes[2],
        t2_msb: bytes[3],
        t3: bytes[4],
        p1_lsb: bytes[5],
        p1_msb: bytes[6],
        p2_lsb: bytes[7],
        p2_msb: bytes[8],
        p3: bytes[9],
        p4_lsb: bytes[10],
        p4_msb: bytes[11],
        p5_lsb: bytes[12],
        p5_msb: bytes[13],
        p6: bytes[14],
        p7: bytes[15],
        p8_lsb: bytes[16],
        p8_msb: bytes[17],
        p9_lsb: bytes[18],
        p9_msb: bytes[19],
        p10: bytes[20],
        h1_shared: bytes[21],
        h1_msb: bytes[22],
        h2_msb: bytes[23],
        h2_shared: bytes[24],
        h3: bytes[25],
        h4: bytes[26],
        h5: bytes[27],
        h6: bytes[28],
        h7: bytes[29],
        g1: bytes[30],
        g2_lsb: bytes[31],
        g2_msb: bytes[32],
        g3: bytes[33],
    }
}

impl CalRegisters {
    /// Names the bytes that the calibration reads gave, in their order.
    pub fn from_bytes(bytes: &[u8; 34]) -> (regs: CalRegisters)
        ensures
            regs == cal_registers(bytes@),
    {
        CalRegisters {
            t1_lsb: bytes[0],
            t1_msb: bytes[1],
            t2_lsb: bytes[2],
            t2_msb: bytes[3],
            t3: bytes[4],
            p1_lsb: bytes[5],
            p1_msb: bytes[6],
            p2_lsb: bytes[7],
            p2_msb: bytes[8],
            p3: bytes[9],
            p4_lsb: bytes[10],
            p4_msb: bytes[11],
            p5_lsb: bytes[12],
            p5_msb: bytes[13],
            p6: bytes[14],
            p7: bytes[15],
            p8_lsb: bytes[16],
            p8_msb: bytes[17],
            p9_lsb: bytes[18],
            p9_msb: bytes[19],
            p10: bytes[20],
            h1_shared: bytes[21],
            h1_msb: bytes[22],
            h2_msb: bytes[23],
            h2_shared: bytes[24],
            h3: bytes[25],
            h4: bytes[26],
            h5: bytes[27],
            h6: bytes[28],
            h7: bytes[29],
            g1: bytes[30],
            g2_lsb: bytes[31],
            g2_msb: bytes[32],
            g3: bytes[33],
        }
    }
}

impl CalCodes {
    /// This calibration with every coefficient taken anew from the register
    /// bytes. The fields that are no coefficients stay. A coefficient of one
    /// byte is signed or unsigned as the data sheet has it; the third
    /// temperature coefficient is a signed byte.
    pub open spec fn spec_with_registers(self, regs: CalRegisters) -> CalCodes {
        CalCodes {
            par_t1: spec_u16_from_le(regs.t1_lsb, regs.t1_msb) as u16,
            par_t2: spec_i16_from_le(regs.t2_lsb, regs.t2_msb) as i16,
            par_t3: spec_i8_from_byte(regs.t3) as i16,
            par_p1: spec_u16_from_le(regs.p1_lsb, regs.p1_msb) as u16,
            par_p2: spec_i16_from_le(regs.p2_lsb, regs.p2_msb) as i16,
            par_p3: spec_i8_from_byte(regs.p3) as i8,
            par_p4: spec_i16_from_le(regs.p4_lsb, regs.p4_msb) as i16,
            par_p5: spec_i16_from_le(regs.p5_lsb, regs.p5_msb) as i16,
            par_p6: spec_i8_from_byte(regs.p6) as i8,
            par_p7: spec_i8_from_byte(regs.p7) as i8,
            par_p8: spec_i16_from_le(regs.p8_lsb, regs.p8_msb) as i16,
            par_p9: spec_i16_from_le(regs.p9_lsb, regs.p9_msb) as i16,
            par_p10: regs.p10,
            par_h1: spec_par_h1(regs.h1_shared, regs.h1_msb) as u16,
            par_h2: spec_par_h2(regs.h2_msb, regs.h2_shared) as u16,
            par_h3: spec_i8_from_byte(regs.h3) as i8,
            par_h4: spec_i8_from_byte(regs.h4) as i8,
            par_h5: spec_i8_from_byte(regs.h5) as i8,
            par_h6: regs.h6,
            par_h7: spec_i8_from_byte(regs.h7) as i8,
            par_g1: spec_i8_from_byte(regs.g1) as i8,
            par_g2: spec_i16_from_le(regs.g2_lsb, regs.g2_msb) as i16,
            par_g3: spec_i8_from_byte(regs.g3) as i8,
            ..self
        }
    }

    /// Takes every coefficient anew from the register bytes.
    pub fn with_registers(self, regs: &CalRegisters) -> (cal: CalCodes)
        ensures
            cal == self.spec_with_registers(*regs),
    {
        CalCodes {
            par_t1: u16_from_le(regs.t1_lsb, regs.t1_msb),
            par_t2: i16_from_le(regs.t2_lsb, regs.t2_msb),
            par_t3: i8_from_byte(regs.t3) as i16,
            par_p1: u16_from_le(regs.p1_lsb, regs.p1_msb),
            par_p2: i16_from_le(regs.p2_lsb, regs.p2_msb),
            par_p3: i8_from_byte(regs.p3),
            par_p4: i16_from_le(regs.p4_lsb, regs.p4_msb),
            par_p5: i16_from_le(regs.p5_lsb, regs.p5_msb),
            par_p6: i8_from_byte(regs.p6),
            par_p7: i8_from_byte(regs.p7),
            par_p8: i16_from_le(regs.p8_lsb, regs.p8_msb),
            par_p9: i16_from_le(regs.p9_lsb, regs.p9_msb),
            par_p10: regs.p10,
            par_h1: par_h1_from(regs.h1_shared, regs.h1_msb),
            par_h2: par_h2_from(regs.h2_msb, regs.h2_shared),
            par_h3: i8_from_byte(regs.h3),
            par_h4: i8_from_byte(regs.h4),
            par_h5: i8_from_byte(regs.h5),
            par_h6: regs.h6,
            par_h7: i8_from_byte(regs.h7),
            par_g1: i8_from_byte(regs.g1),
            par_g2: i16_from_le(regs.g2_lsb, regs.g2_msb),
            par_g3: i8_from_byte(regs.g3),
            ..self
        }
    }
}

} // verus!
