//! Driver for the BME680 environmental sensor.
//!
//! The driver sits on a [`Chip`] with the sensor's register map. It reads
//! the factory calibration once, when it is made, and from then on turns
//! the raw words of the converter into physical units and sets the sensor
//! up for measuring.

use core::marker::PhantomData;
use vstd::prelude::*;
use vstd::std_specs::convert::FromSpecImpl;

use crate::bme680_map::{
    lemma_calibration_names_known, lemma_driver_fields, lemma_gas_wait_names, lemma_res_heat_names,
    BME680FieldMap,
};
use crate::calibration::{cal_registers, CalRegisters, CAL_READS};
use crate::chip::{
    failure_of, lemma_known_name_cannot_fail, lemma_read_reg_cannot_fail,
    lemma_unknown_name_is_not_found, Chip, I2CError, I2CProvider,
};
use crate::compensation::{
    adc_word, div_toward_zero, spec_adc_word, spec_temp_comp, temperature_from_fine, ADC_MAX,
    FINE_LIMIT,
};
use crate::names::{indexed_name, spec_indexed_name};

verus! {

/// Why a driver operation failed.
#[derive(Debug)]
pub enum BME680Error {
    /// Something that the driver itself looked for is missing. No operation
    /// of the driver gives it: a field that the register map lacks comes as
    /// `BusError` around the accessor's `NotFound`.
    NotFound,
    /// An access to the sensor failed: on the bus, or because the register
    /// map holds no field of the name asked for.
    BusError(I2CError),
}

impl From<I2CError> for BME680Error {
    fn from(err: I2CError) -> (e: Self) {
        BME680Error::BusError(err)
    }
}

impl FromSpecImpl<I2CError> for BME680Error {
    open spec fn obeys_from_spec() -> bool {
        true
    }

    open spec fn from_spec(err: I2CError) -> Self {
        BME680Error::BusError(err)
    }
}

/// The factory calibration of one sensor, as read from its registers.
#[derive(Clone, Copy, Debug)]
pub struct CalCodes {
    // Pressure
    pub par_p10: u8,
    pub par_p9: i16,
    pub par_p8: i16,
    pub par_p7: i8,
    pub par_p6: i8,
    pub par_p5: i16,
    pub par_p4: i16,
    pub par_p3: i8,
    pub par_p2: i16,
    pub par_p1: u16,
    // Temperature
    pub par_t3: i16,
    pub par_t2: i16,
    pub par_t1: u16,
    // Humidity
    pub par_h7: i8,
    pub par_h6: u8,
    pub par_h5: i8,
    pub par_h4: i8,
    pub par_h3: i8,
    pub par_h2: u16,
    pub par_h1: u16,
    // Gas
    pub par_g3: i8,
    pub par_g2: i16,
    pub par_g1: i8,
    // Misc
    pub res_heat_range: i8,
    pub res_heat_val: i8,
    pub gas_adc: i16,
    pub gas_range: i8,
    pub range_switching_error: i8,
}

/// The calibration in which every coefficient is zero.
pub open spec fn zero_cal_codes() -> CalCodes {
    CalCodes {
        par_p10: 0,
        par_p9: 0,
        par_p8: 0,
        par_p7: 0,
        par_p6: 0,
        par_p5: 0,
        par_p4: 0,
        par_p3: 0,
        par_p2: 0,
        par_p1: 0,
        par_t3: 0,
        par_t2: 0,
        par_t1: 0,
        par_h7: 0,
        par_h6: 0,
        par_h5: 0,
        par_h4: 0,
        par_h3: 0,
        par_h2: 0,
        par_h1: 0,
        par_g3: 0,
        par_g2: 0,
        par_g1: 0,
        res_heat_range: 0,
        res_heat_val: 0,
        gas_adc: 0,
        gas_range: 0,
        range_switching_error: 0,
    }
}

impl Default for CalCodes {
    fn default() -> (cal: Self)
        ensures
            cal == zero_cal_codes(),
    {
        CalCodes {
            par_p10: 0,
            par_p9: 0,
            par_p8: 0,
            par_p7: 0,
            par_p6: 0,
            par_p5: 0,
            par_p4: 0,
            par_p3: 0,
            par_p2: 0,
            par_p1: 0,
            par_t3: 0,
            par_t2: 0,
            par_t1: 0,
            par_h7: 0,
            par_h6: 0,
            par_h5: 0,
            par_h4: 0,
            par_h3: 0,
            par_h2: 0,
            par_h1: 0,
            par_g3: 0,
            par_g2: 0,
            par_g1: 0,
            res_heat_range: 0,
            res_heat_val: 0,
            gas_adc: 0,
            gas_range: 0,
            range_switching_error: 0,
        }
    }
}

/// What the driver's transfers may give, said of the sensor's accessor.
impl<I2C: I2CProvider> Chip<I2C, BME680FieldMap> {
    /// A read of the field `name` for the driver may end in `r`. The
    /// driver passes the accessor's result on; an accessor's error comes
    /// wrapped as `BusError`.
    pub open spec fn may_read_named(&self, name: Seq<char>, r: Result<u8, BME680Error>) -> bool {
        match r {
            Ok(v) => self.may_read_field(name, Ok(v)),
            Err(BME680Error::BusError(e)) => self.may_read_field(name, Err(e)),
            Err(BME680Error::NotFound) => false,
        }
    }

    /// A read of the register `reg` for the driver may end in `r`.
    pub open spec fn may_read_raw(&self, reg: u8, r: Result<u8, BME680Error>) -> bool {
        match r {
            Ok(v) => self.may_read_reg(reg, Ok(v)),
            Err(BME680Error::BusError(e)) => self.may_read_reg(reg, Err(e)),
            Err(BME680Error::NotFound) => false,
        }
    }

    /// A write of `field_val` to the field `name` for the driver may
    /// succeed, or fail with `failure`.
    pub open spec fn may_write_named(
        &self,
        name: Seq<char>,
        field_val: u8,
        failure: Option<BME680Error>,
    ) -> bool {
        match failure {
            None => self.may_write_field(name, field_val, None),
            Some(BME680Error::BusError(e)) => self.may_write_field(name, field_val, Some(e)),
            Some(BME680Error::NotFound) => false,
        }
    }

    /// The `k`-th read of the calibration may end in `r`. The reads go in a
    /// fixed order, one register each: a low byte or a single byte through
    /// its named field, a high byte through the address of the register
    /// after. There are [`CAL_READS`] of them.
    pub open spec fn may_read_cal_byte(&self, k: int, r: Result<u8, BME680Error>) -> bool {
        if k == 0 {
            self.may_read_named("par_t1"@, r)
        } else if k == 1 {
            self.may_read_raw(0xea, r)
        } else if k == 2 {
            self.may_read_named("par_t2"@, r)
        } else if k == 3 {
            self.may_read_raw(0x8b, r)
        } else if k == 4 {
            self.may_read_named("par_t3"@, r)
        } else if k == 5 {
            self.may_read_named("par_p1"@, r)
        } else if k == 6 {
            self.may_read_raw(0x8f, r)
        } else if k == 7 {
            self.may_read_named("par_p2"@, r)
        } else if k == 8 {
            self.may_read_raw(0x91, r)
        } else if k == 9 {
            self.may_read_named("par_p3"@, r)
        } else if k == 10 {
            self.may_read_named("par_p4"@, r)
        } else if k == 11 {
            self.may_read_raw(0x95, r)
        } else if k == 12 {
            self.may_read_named("par_p5"@, r)
        } else if k == 13 {
            self.may_read_raw(0x97, r)
        } else if k == 14 {
            self.may_read_named("par_p6"@, r)
        } else if k == 15 {
            self.may_read_named("par_p7"@, r)
        } else if k == 16 {
            self.may_read_named("par_p8"@, r)
        } else if k == 17 {
            self.may_read_raw(0x9d, r)
        } else if k == 18 {
            self.may_read_named("par_p9"@, r)
        } else if k == 19 {
            self.may_read_raw(0x9f, r)
        } else if k == 20 {
            self.may_read_named("par_p10"@, r)
        } else if k == 21 {
            self.may_read_named("par_h1"@, r)
        } else if k == 22 {
            self.may_read_raw(0xe3, r)
        } else if k == 23 {
            self.may_read_named("par_h2"@, r)
        } else if k == 24 {
            self.may_read_raw(0xe2, r)
        } else if k == 25 {
            self.may_read_named("par_h3"@, r)
        } else if k == 26 {
            self.may_read_named("par_h4"@, r)
        } else if k == 27 {
            self.may_read_named("par_h5"@, r)
        } else if k == 28 {
            self.may_read_named("par_h6"@, r)
        } else if k == 29 {
            self.may_read_named("par_h7"@, r)
        } else if k == 30 {
            self.may_read_named("par_g1"@, r)
        } else if k == 31 {
            self.may_read_named("par_g2"@, r)
        } else if k == 32 {
            self.may_read_raw(0xec, r)
        } else if k == 33 {
            self.may_read_named("par_g3"@, r)
        } else {
            false
        }
    }

    /// Each of the first `n` reads of the calibration may give its byte of
    /// `bytes`.
    pub open spec fn may_read_cal_upto(&self, bytes: Seq<u8>, n: int) -> bool {
        forall|k: int| 0 <= k < n ==> #[trigger] self.may_read_cal_byte(k, Ok(bytes[k]))
    }

    /// The reads of the calibration may give `bytes`, one after the other.
    pub open spec fn may_read_cal(&self, bytes: Seq<u8>) -> bool {
        bytes.len() == CAL_READS && self.may_read_cal_upto(bytes, CAL_READS as int)
    }

    /// The reads of the calibration may end in the error `e`: one of them may
    /// fail with it, after the reads before it have given their bytes.
    pub open spec fn may_fail_cal(&self, e: BME680Error) -> bool {
        exists|k: int, bytes: Seq<u8>|
            0 <= k < CAL_READS && bytes.len() == CAL_READS && #[trigger] self.may_read_cal_upto(
                bytes,
                k,
            ) && self.may_read_cal_byte(k, Err(e))
    }

    /// The settings for measuring with heater profile `profile_num`, but for
    /// the heater's own, may all be written: sixteen-fold oversampling of
    /// humidity, temperature and pressure, a filter coefficient of 3, the
    /// gas range, the gas measurement switched on, and the heater profile
    /// selected.
    pub open spec fn may_write_settings(&self, profile_num: u8) -> bool {
        &&& self.may_write_named("osrs_h"@, 0b101, None)
        &&& self.may_write_named("osrs_t"@, 0b101, None)
        &&& self.may_write_named("osrs_p"@, 0b101, None)
        &&& self.may_write_named("filter"@, 0b010, None)
        &&& self.may_write_named("gas_range_r"@, 4, None)
        &&& self.may_write_named("run_gas"@, 0b1, None)
        &&& self.may_write_named("nb_conv"@, profile_num, None)
    }

    /// The writing of those settings may end in the error `e`: one of the
    /// writes may fail with it, after the writes before it have succeeded.
    pub open spec fn may_fail_settings(&self, profile_num: u8, e: BME680Error) -> bool {
        ||| self.may_write_named("osrs_h"@, 0b101, Some(e))
        ||| self.may_write_named("osrs_h"@, 0b101, None) && {
            ||| self.may_write_named("osrs_t"@, 0b101, Some(e))
            ||| self.may_write_named("osrs_t"@, 0b101, None) && {
                ||| self.may_write_named("osrs_p"@, 0b101, Some(e))
                ||| self.may_write_named("osrs_p"@, 0b101, None) && {
                    ||| self.may_write_named("filter"@, 0b010, Some(e))
                    ||| self.may_write_named("filter"@, 0b010, None) && {
                        ||| self.may_write_named("gas_range_r"@, 4, Some(e))
                        ||| self.may_write_named("gas_range_r"@, 4, None) && {
                            ||| self.may_write_named("run_gas"@, 0b1, Some(e))
                            ||| self.may_write_named("run_gas"@, 0b1, None)
                                && self.may_write_named("nb_conv"@, profile_num, Some(e))
                        }
                    }
                }
            }
        }
    }

    /// The settings and the gas wait of 30 ms for heater profile
    /// `profile_num` may all be written.
    pub open spec fn may_configure(&self, profile_num: u8) -> bool {
        &&& self.may_write_settings(profile_num)
        &&& self.may_write_named(spec_indexed_name("gas_wait_"@, profile_num), 0b00011110, None)
    }

    /// The writing of the settings and of the gas wait may end in the error
    /// `e`.
    pub open spec fn may_fail_configure(&self, profile_num: u8, e: BME680Error) -> bool {
        ||| self.may_fail_settings(profile_num, e)
        ||| self.may_write_settings(profile_num) && self.may_write_named(
            spec_indexed_name("gas_wait_"@, profile_num),
            0b00011110,
            Some(e),
        )
    }

    /// The reading of the heater's two correction values may end in the
    /// error `e`.
    pub open spec fn may_fail_heater_reads(&self, e: BME680Error) -> bool {
        ||| self.may_read_named("res_heat_range"@, Err(e))
        ||| exists|res_heat_range: u8| #[trigger]
            self.may_read_named("res_heat_range"@, Ok(res_heat_range)) && self.may_read_named(
                "res_heat_val"@,
                Err(e),
            )
    }

    /// A read of the three registers from the field `first` on, into a
    /// zeroed buffer, may leave `after` there and succeed, or fail with
    /// `failure`.
    pub open spec fn may_read_three(
        &self,
        first: Seq<char>,
        after: Seq<u8>,
        failure: Option<BME680Error>,
    ) -> bool {
        &&& after.len() == 3
        &&& match failure {
            None => self.may_read_regs_str(first, seq![0u8, 0u8, 0u8], after, None),
            Some(BME680Error::BusError(e)) => self.may_read_regs_str(
                first,
                seq![0u8, 0u8, 0u8],
                after,
                Some(e),
            ),
            Some(BME680Error::NotFound) => false,
        }
    }

    /// A measurement may give `bytes` as the three registers from the field
    /// `first` on: the write that starts a conversion in forced mode
    /// succeeds, and so does the read of the three registers.
    pub open spec fn may_measure(&self, first: Seq<char>, bytes: Seq<u8>) -> bool {
        &&& self.may_write_named("mode"@, 0b01, None)
        &&& self.may_read_three(first, bytes, None)
    }

    /// A measurement may end in the error `e`: the write that starts the
    /// conversion may fail with it, or that write succeeds and the read of
    /// the three registers may fail with it.
    pub open spec fn may_fail_measure(&self, first: Seq<char>, e: BME680Error) -> bool {
        ||| self.may_write_named("mode"@, 0b01, Some(e))
        ||| {
            &&& self.may_write_named("mode"@, 0b01, None)
            &&& exists|after: Seq<u8>| #[trigger] self.may_read_three(first, after, Some(e))
        }
    }
}

/// The sensor driver: the accessor of one sensor, its calibration, and the
/// temperature that was measured last.
///
/// The fine temperature is written by the temperature compensation only and
/// read by the compensation of the other measurements. One driver owns one
/// sensor: two drivers on one sensor would each compensate with the
/// temperature the other one measured.
pub struct BME680<I2C, ChipGeneric = Chip<I2C, BME680FieldMap>> {
    pub chip: ChipGeneric,
    pub cal_codes: CalCodes,
    /// The last compensated temperature, in hundredths of a degree Celsius;
    /// zero before the first measurement. Zero stands for "none cached": a
    /// measured 0.00 degrees is measured again where a temperature is needed.
    pub temp_comp: i32,
    /// The fine temperature that belongs to `temp_comp`.
    pub t_fine: i32,
    pub _i2c: PhantomData<I2C>,
}

impl<I2C: I2CProvider> BME680<I2C, Chip<I2C, BME680FieldMap>> {
    /// The cached temperature is one that the temperature formula gives: the
    /// fine temperature lies in the formula's range, and the compensated
    /// temperature is the one that belongs to it.
    pub open spec fn wf(&self) -> bool {
        &&& -FINE_LIMIT < self.t_fine < FINE_LIMIT
        &&& self.temp_comp == spec_temp_comp(self.t_fine as int)
    }

    /// Whether the cached temperature is one that the temperature formula
    /// gives.
    pub fn is_wf(&self) -> (ok: bool)
        ensures
            ok == self.wf(),
    {
        -FINE_LIMIT < self.t_fine && self.t_fine < FINE_LIMIT && self.temp_comp
            == temperature_from_fine(self.t_fine)
    }

    /// Reads a field, with the accessor's error turned into the driver's.
    fn rf(&self, name: &str) -> (r: Result<u8, BME680Error>)
        ensures
            self.chip.may_read_named(name@, r),
    {
        match self.chip.read_field(name) {
            Ok(v) => Ok(v),
            Err(e) => Err(BME680Error::from(e)),
        }
    }

    /// Reads a register, with the accessor's error turned into the driver's.
    fn rr(&self, reg: u8) -> (r: Result<u8, BME680Error>)
        ensures
            self.chip.may_read_raw(reg, r),
    {
        match self.chip.read_reg(reg) {
            Ok(v) => Ok(v),
            Err(e) => Err(BME680Error::from(e)),
        }
    }

    /// Writes a field, with the accessor's error turned into the driver's.
    fn put(&self, name: &str, field_val: u8) -> (r: Result<(), BME680Error>)
        ensures
            self.chip.may_write_named(name@, field_val, failure_of(r)),
    {
        match self.chip.write_field(name, field_val) {
            Ok(_) => Ok(()),
            Err(e) => Err(BME680Error::from(e)),
        }
    }

    /// Makes the `k`-th read of the calibration.
    fn read_cal_byte(&self, k: usize) -> (r: Result<u8, BME680Error>)
        requires
            k < CAL_READS,
        ensures
            self.chip.may_read_cal_byte(k as int, r),
    {
        match k {
            0 => self.rf("par_t1"),
            1 => self.rr(0xea),
            2 => self.rf("par_t2"),
            3 => self.rr(0x8b),
            4 => self.rf("par_t3"),
            5 => self.rf("par_p1"),
            6 => self.rr(0x8f),
            7 => self.rf("par_p2"),
            8 => self.rr(0x91),
            9 => self.rf("par_p3"),
            10 => self.rf("par_p4"),
            11 => self.rr(0x95),
            12 => self.rf("par_p5"),
            13 => self.rr(0x97),
            14 => self.rf("par_p6"),
            15 => self.rf("par_p7"),
            16 => self.rf("par_p8"),
            17 => self.rr(0x9d),
            18 => self.rf("par_p9"),
            19 => self.rr(0x9f),
            20 => self.rf("par_p10"),
            21 => self.rf("par_h1"),
            22 => self.rr(0xe3),
            23 => self.rf("par_h2"),
            24 => self.rr(0xe2),
            25 => self.rf("par_h3"),
            26 => self.rf("par_h4"),
            27 => self.rf("par_h5"),
            28 => self.rf("par_h6"),
            29 => self.rf("par_h7"),
            30 => self.rf("par_g1"),
            31 => self.rf("par_g2"),
            32 => self.rr(0xec),
            _ => self.rf("par_g3"),
        }
    }

    /// Reads the calibration registers, one transfer for each, and stops at
    /// the first read that fails.
    fn read_cal_registers(&self) -> (r: Result<CalRegisters, BME680Error>)
        ensures
            match r {
                Ok(regs) => exists|bytes: Seq<u8>| #[trigger]
                    self.chip.may_read_cal(bytes) && regs == cal_registers(bytes),
                Err(e) => self.chip.may_fail_cal(e),
            },
    {
        let mut bytes = [0u8; 34];
        let mut k: usize = 0;
        while k < CAL_READS
            invariant
                k <= CAL_READS,
                self.chip.may_read_cal_upto(bytes@, k as int),
            decreases CAL_READS - k,
        {
            match self.read_cal_byte(k) {
                Ok(v) => {
                    bytes[k] = v;
                },
                Err(e) => {
                    return Err(e);
                },
            }
            k += 1;
        }
        assert(self.chip.may_read_cal(bytes@));
        Ok(CalRegisters::from_bytes(&bytes))
    }

    /// Reads the factory calibration from the sensor anew. When every read
    /// succeeds, each coefficient is put together from the bytes that
    /// arrived. When a read fails, the error of that read is returned, and
    /// the driver keeps the calibration it had.
    pub fn read_cal_codes(&mut self) -> (r: Result<(), BME680Error>)
        ensures
            final(self).chip == old(self).chip,
            final(self).temp_comp == old(self).temp_comp,
            final(self).t_fine == old(self).t_fine,
            match r {
                Ok(_) => exists|bytes: Seq<u8>| #[trigger]
                    old(self).chip.may_read_cal(bytes) && final(self).cal_codes
                        == old(self).cal_codes.spec_with_registers(cal_registers(bytes)),
                Err(e) => old(self).chip.may_fail_cal(e) && final(self).cal_codes
                    == old(self).cal_codes,
            },
    {
        let regs = self.read_cal_registers()?;
        self.cal_codes = self.cal_codes.with_registers(&regs);
        Ok(())
    }

    /// Making a driver for the sensor at `i2c_addr` on the transport `i2c`
    /// may end in `r`. A driver that is made holds the transport and the
    /// address, has no temperature cached, and has every coefficient of
    /// its calibration from bytes that reads of the calibration registers
    /// may give. An error is that of a read of the calibration which may
    /// fail with it after the reads before it have given their bytes.
    pub open spec fn may_make(i2c: I2C, i2c_addr: u8, r: Result<Self, BME680Error>) -> bool {
        match r {
            Ok(bme) => {
                &&& bme.chip.i2c == i2c
                &&& bme.chip.i2c_addr == i2c_addr
                &&& bme.temp_comp == 0
                &&& bme.t_fine == 0
                &&& exists|bytes: Seq<u8>| #[trigger]
                    bme.chip.may_read_cal(bytes) && bme.cal_codes
                        == zero_cal_codes().spec_with_registers(cal_registers(bytes))
            },
            Err(e) => (Chip::<I2C, BME680FieldMap> { i2c, i2c_addr, _map: PhantomData }).may_fail_cal(
                e,
            ),
        }
    }

    /// Makes the driver of the sensor at `i2c_addr` and reads the sensor's
    /// calibration. A failed read aborts: its error is returned and no
    /// driver is made.
    pub fn new(i2c: I2C, i2c_addr: u8) -> (r: Result<Self, BME680Error>)
        ensures
            Self::may_make(i2c, i2c_addr, r),
            r matches Ok(bme) ==> bme.wf(),
    {
        let chip: Chip<I2C, BME680FieldMap> = Chip { i2c, i2c_addr, _map: PhantomData };
        let mut this = Self {
            chip,
            cal_codes: CalCodes::default(),
            temp_comp: 0,
            t_fine: 0,
            _i2c: PhantomData,
        };
        match this.read_cal_codes() {
            Ok(_) => Ok(this),
            Err(e) => Err(e),
        }
    }

    /// The converter's word in the three bytes of a measurement.
    pub open spec fn spec_word(bytes: Seq<u8>) -> u32 {
        spec_adc_word(bytes[0], bytes[1], bytes[2]) as u32
    }

    /// Starts a conversion and reads the three registers from the field
    /// `first` on.
    fn measure(&self, first: &str) -> (r: Result<u32, BME680Error>)
        ensures
            match r {
                Ok(word) => word <= ADC_MAX && exists|bytes: Seq<u8>| #[trigger]
                    self.chip.may_measure(first@, bytes) && word == Self::spec_word(bytes),
                Err(e) => self.chip.may_fail_measure(first@, e),
            },
    {
        self.put("mode", 0b01)?;
        let mut out = [0u8; 3];
        let ghost before = out@;
        let read = self.chip.read_regs_str(first, &mut out);
        proof {
            assert(before =~= seq![0u8, 0u8, 0u8]);
        }
        match read {
            Ok(_) => {
                assert(self.chip.may_read_three(first@, out@, None));
                assert(self.chip.may_measure(first@, out@));
            },
            Err(e) => {
                let failure = BME680Error::from(e);
                assert(self.chip.may_read_three(first@, out@, Some(failure)));
                return Err(failure);
            },
        }
        Ok(adc_word(out[0], out[1], out[2]))
    }

    /// Measures the temperature: starts a conversion in forced mode, reads
    /// the converter's word and compensates it. The result is in hundredths
    /// of a degree Celsius. It is kept, with its fine temperature, for the
    /// compensation of later measurements. When a transfer fails, the driver
    /// stays as it was.
    pub fn read_temperature(&mut self) -> (r: Result<i32, BME680Error>)
        ensures
            final(self).chip == old(self).chip,
            final(self).cal_codes == old(self).cal_codes,
            match r {
                Ok(temp_comp) => {
                    &&& final(self).temp_comp == temp_comp
                    &&& final(self).wf()
                    &&& exists|bytes: Seq<u8>| #[trigger]
                        old(self).chip.may_measure("temp_msb"@, bytes) && final(self).t_fine
                            == old(self).cal_codes.spec_fine_temperature(Self::spec_word(bytes))
                },
                Err(e) => {
                    &&& old(self).chip.may_fail_measure("temp_msb"@, e)
                    &&& final(self).temp_comp == old(self).temp_comp
                    &&& final(self).t_fine == old(self).t_fine
                },
            },
    {
        let temp_adc = self.measure("temp_msb")?;
        Ok(self.calibrate_temperature(temp_adc))
    }

    /// Measures the pressure: starts a conversion in forced mode, reads the
    /// converter's word and compensates it at the cached fine temperature,
    /// which has to lie in the range of the temperature formula. The result
    /// is in pascal.
    pub fn read_pressure(&self) -> (r: Result<u32, BME680Error>)
        requires
            -FINE_LIMIT < self.t_fine < FINE_LIMIT,
        ensures
            match r {
                Ok(press_comp) => exists|bytes: Seq<u8>| #[trigger]
                    self.chip.may_measure("press_msb"@, bytes) && press_comp
                        == self.cal_codes.spec_pressure(self.t_fine, Self::spec_word(bytes)),
                Err(e) => self.chip.may_fail_measure("press_msb"@, e),
            },
    {
        let press_adc = self.measure("press_msb")?;
        Ok(self.calibrate_pressure(press_adc))
    }

    /// Compensates the raw pressure word `press_adc` with the ten pressure
    /// coefficients at the cached fine temperature. Returns the pressure in
    /// pascal.
    pub fn calibrate_pressure(&self, press_adc: u32) -> (press_comp: u32)
        requires
            -FINE_LIMIT < self.t_fine < FINE_LIMIT,
            press_adc <= ADC_MAX,
        ensures
            press_comp == self.cal_codes.spec_pressure(self.t_fine, press_adc),
    {
        self.cal_codes.pressure(self.t_fine, press_adc)
    }

    /// Compensates the raw temperature word `temp_adc` with the three
    /// temperature coefficients and keeps the result. Returns the temperature
    /// in hundredths of a degree Celsius.
    pub fn calibrate_temperature(&mut self, temp_adc: u32) -> (temp_comp: i32)
        requires
            temp_adc <= ADC_MAX,
        ensures
            temp_comp == old(self).cal_codes.spec_temperature(temp_adc),
            final(self).temp_comp == temp_comp,
            final(self).t_fine == old(self).cal_codes.spec_fine_temperature(temp_adc),
            final(self).cal_codes == old(self).cal_codes,
            final(self).chip == old(self).chip,
            final(self).wf(),
    {
        let t_fine = self.cal_codes.fine_temperature(temp_adc);
        let temp_comp = temperature_from_fine(t_fine);

        // Save intermediate values
        self.t_fine = t_fine;
        self.temp_comp = temp_comp;

        temp_comp
    }

    /// Sets the sensor up for measuring with heater profile `profile_num`:
    /// oversampling, filter, gas range, gas measurement on, the profile, its
    /// gas wait of 30 ms and its heater temperature of 300 degrees Celsius.
    /// The first transfer that fails ends the set-up with its error. A
    /// profile number above 9 names no gas-wait register: unless a write
    /// before fails, the result is the accessor's `NotFound`.
    pub fn config(&mut self, profile_num: u8) -> (r: Result<(), BME680Error>)
        ensures
            final(self).chip == old(self).chip,
            final(self).cal_codes == old(self).cal_codes,
            old(self).wf() ==> final(self).wf(),
            old(self).temp_comp != 0 ==> final(self).temp_comp == old(self).temp_comp
                && final(self).t_fine == old(self).t_fine,
            match r {
                Ok(_) => {
                    &&& old(self).chip.may_configure(profile_num)
                    &&& final(self).may_set_heater(300, profile_num)
                    &&& Self::measured_if_none(*old(self), *final(self))
                },
                Err(e) => {
                    ||| {
                        &&& old(self).chip.may_fail_configure(profile_num, e)
                        &&& final(self).temp_comp == old(self).temp_comp
                        &&& final(self).t_fine == old(self).t_fine
                    }
                    ||| {
                        &&& old(self).chip.may_configure(profile_num)
                        &&& Self::heater_failed(*old(self), *final(self), 300, profile_num, e)
                    }
                },
            },
            profile_num > 9 ==> (r matches Err(e) && (e == BME680Error::BusError(
                I2CError::NotFound,
            ) || old(self).chip.may_fail_settings(profile_num, e))),
    {
        // Other Sensor Settings
        self.put("osrs_h", 0b101)?;  // 16x oversampling
        self.put("osrs_t", 0b101)?;  // 16x oversampling
        self.put("osrs_p", 0b101)?;  // 16x oversampling
        self.put("filter", 0b010)?;  // Filter coefficient of 3 - form of averaging filter

        // Gas Sensor Settings
        self.put("gas_range_r", 4)?;  // Set Gas Range
        self.put("run_gas", 0b1)?;  // Turn on Gas Sensor
        self.put("nb_conv", profile_num)?;  // Select the heater profile

        // Set time between beginning of the heat phase and start of resistance conversion
        self.set_gas_wait(0b00011110, profile_num)?;  // 30 ms

        // Set heater temperature
        self.set_heater_temp(300, profile_num)?;  // 300 C

        Ok(())
    }

    /// Sets the time between the start of the heating and the start of the
    /// gas measurement for heater profile `profile_num`. The sensor has the
    /// profiles 0 to 9; for a higher number there is no field, and the result
    /// is the accessor's `NotFound`.
    pub fn set_gas_wait(&mut self, wait_time_ms: u8, profile_num: u8) -> (r: Result<
        (),
        BME680Error,
    >)
        ensures
            *final(self) == *old(self),
            old(self).chip.may_write_named(
                spec_indexed_name("gas_wait_"@, profile_num),
                wait_time_ms,
                failure_of(r),
            ),
            profile_num > 9 ==> failure_of(r) == Some(BME680Error::BusError(I2CError::NotFound)),
    {
        proof {
            reveal_strlit("gas_wait_");
            lemma_gas_wait_names(profile_num);
        }
        let name = indexed_name("gas_wait_", profile_num);
        match self.chip.write_field(name.as_str(), wait_time_ms) {
            Ok(_) => Ok(()),
            Err(e) => Err(BME680Error::from(e)),
        }
    }

    /// The resistance byte for a hot plate at `target_temp` degrees Celsius,
    /// at the temperature that the driver has cached and with the sensor's
    /// two correction values.
    pub open spec fn spec_heater_byte(
        &self,
        target_temp: i16,
        res_heat_range: u8,
        res_heat_val: u8,
    ) -> u8 {
        self.cal_codes.spec_heater_resistance(
            div_toward_zero(self.temp_comp as int, 100) as i32,
            target_temp,
            res_heat_range,
            res_heat_val,
        )
    }

    /// The two correction values are read, and the write of the resistance
    /// byte that the formula gives for them, to the register of profile
    /// `profile_num`, may succeed, or fail with `failure`.
    pub open spec fn may_write_heater(
        &self,
        target_temp: i16,
        profile_num: u8,
        failure: Option<BME680Error>,
    ) -> bool {
        exists|res_heat_range: u8, res_heat_val: u8|
            {
                &&& #[trigger] self.chip.may_read_named("res_heat_range"@, Ok(res_heat_range))
                &&& #[trigger] self.chip.may_read_named("res_heat_val"@, Ok(res_heat_val))
                &&& self.chip.may_write_named(
                    spec_indexed_name("res_heat_"@, profile_num),
                    self.spec_heater_byte(target_temp, res_heat_range, res_heat_val),
                    failure,
                )
            }
    }

    /// The heater of profile `profile_num` may be set for `target_temp`
    /// degrees Celsius at the temperature that the driver has cached.
    pub open spec fn may_set_heater(&self, target_temp: i16, profile_num: u8) -> bool {
        self.may_write_heater(target_temp, profile_num, None)
    }

    /// A temperature was measured where `before` had none cached, and
    /// `after` holds its fine temperature and the temperature that belongs
    /// to it.
    pub open spec fn measured_if_none(before: Self, after: Self) -> bool {
        before.temp_comp == 0 ==> after.temp_comp == spec_temp_comp(after.t_fine as int)
            && exists|bytes: Seq<u8>| #[trigger]
            before.chip.may_measure("temp_msb"@, bytes) && after.t_fine
                == before.cal_codes.spec_fine_temperature(Self::spec_word(bytes))
    }

    /// Setting the heater, which took the driver from `before` to `after`,
    /// may have ended in the error `e`. Either no temperature was cached and
    /// the measurement may fail with `e`, the driver staying as it was; or a
    /// temperature is there and the reading of the correction values or the
    /// write of the resistance byte may fail with `e`.
    pub open spec fn heater_failed(
        before: Self,
        after: Self,
        target_temp: i16,
        profile_num: u8,
        e: BME680Error,
    ) -> bool {
        ||| {
            &&& before.temp_comp == 0
            &&& before.chip.may_fail_measure("temp_msb"@, e)
            &&& after.temp_comp == before.temp_comp
            &&& after.t_fine == before.t_fine
        }
        ||| {
            &&& Self::measured_if_none(before, after)
            &&& {
                ||| after.chip.may_fail_heater_reads(e)
                ||| after.may_write_heater(target_temp, profile_num, Some(e))
            }
        }
    }

    /// Setting the heater may have ended in the error `e` before the write of
    /// the resistance byte was reached.
    pub open spec fn heater_failed_early(before: Self, e: BME680Error) -> bool {
        ||| before.temp_comp == 0 && before.chip.may_fail_measure("temp_msb"@, e)
        ||| before.chip.may_fail_heater_reads(e)
    }

    /// Sets the heater of profile `profile_num` for a hot-plate temperature
    /// of `target_temp` degrees Celsius. The resistance that reaches it
    /// depends on the ambient temperature: when none is cached (the cached
    /// temperature is zero), one is measured first. A profile number above 9
    /// names no register: unless a transfer before the write fails, the
    /// result is the accessor's `NotFound`.
    pub fn set_heater_temp(&mut self, target_temp: i16, profile_num: u8) -> (r: Result<
        (),
        BME680Error,
    >)
        ensures
            final(self).chip == old(self).chip,
            final(self).cal_codes == old(self).cal_codes,
            old(self).wf() ==> final(self).wf(),
            old(self).temp_comp != 0 ==> final(self).temp_comp == old(self).temp_comp
                && final(self).t_fine == old(self).t_fine,
            match r {
                Ok(_) => {
                    &&& final(self).may_set_heater(target_temp, profile_num)
                    &&& Self::measured_if_none(*old(self), *final(self))
                },
                Err(e) => Self::heater_failed(
                    *old(self),
                    *final(self),
                    target_temp,
                    profile_num,
                    e,
                ),
            },
            profile_num > 9 ==> (r matches Err(e) && (e == BME680Error::BusError(
                I2CError::NotFound,
            ) || Self::heater_failed_early(*old(self), e))),
    {
        // --- Ensure temperature compensation is available ---
        if self.temp_comp == 0 {
            self.read_temperature()?;
        }
        let amb_temp: i32 = self.temp_comp / 100;

        // --- Read intermediates ---
        let res_heat_range = self.rf("res_heat_range")?;
        let res_heat_val = self.rf("res_heat_val")?;

        // --- Calculate heater resistance ---
        let res_heat_x = self.cal_codes.heater_resistance(
            amb_temp,
            target_temp,
            res_heat_range,
            res_heat_val,
        );

        // Format field name and write
        proof {
            reveal_strlit("res_heat_");
            lemma_res_heat_names(profile_num);
        }
        let name = indexed_name("res_heat_", profile_num);
        match self.chip.write_field(name.as_str(), res_heat_x) {
            Ok(_) => Ok(()),
            Err(e) => Err(BME680Error::from(e)),
        }
    }
}

/// A sensor whose first calibration register cannot be read gets no driver:
/// making one ends in the error that the read of that register gave,
/// whatever the later reads would give.
pub proof fn lemma_no_driver_without_first_read<I2C: I2CProvider>(
    i2c: I2C,
    i2c_addr: u8,
    r: Result<BME680<I2C>, BME680Error>,
)
    requires
        BME680::may_make(i2c, i2c_addr, r),
        forall|b: u8|
            !(Chip::<I2C, BME680FieldMap> { i2c, i2c_addr, _map: PhantomData }).may_read_named(
                "par_t1"@,
                Ok(b),
            ),
    ensures
        r matches Err(e) && (Chip::<I2C, BME680FieldMap> {
            i2c,
            i2c_addr,
            _map: PhantomData,
        }).may_read_named("par_t1"@, Err(e)),
{
    let chip = Chip::<I2C, BME680FieldMap> { i2c, i2c_addr, _map: PhantomData };
    match r {
        Ok(bme) => {
            assert(bme.chip == chip);
            let bytes = choose|bytes: Seq<u8>| #[trigger]
                bme.chip.may_read_cal(bytes) && bme.cal_codes
                    == zero_cal_codes().spec_with_registers(cal_registers(bytes));
            assert(chip.may_read_cal_byte(0, Ok(bytes[0])));
        },
        Err(e) => {
            let (k, bytes) = choose|k: int, bytes: Seq<u8>|
                0 <= k < CAL_READS && bytes.len() == CAL_READS && #[trigger] chip.may_read_cal_upto(
                    bytes,
                    k,
                ) && chip.may_read_cal_byte(k, Err(e));
            if k > 0 {
                assert(chip.may_read_cal_byte(0, Ok(bytes[0])));
            }
        },
    }
}

/// On a bus that cannot fail, the driver's transfers do not fail: not the
/// reads of the calibration, not a measurement, not the writes of the
/// settings, not the reads of the heater's correction values. The gas wait
/// of a profile up to 9 does not fail either; that of a profile above 9
/// can only end in the accessor's `NotFound`.
pub proof fn lemma_working_bus<I2C: I2CProvider>(
    chip: Chip<I2C, BME680FieldMap>,
    profile_num: u8,
    e: BME680Error,
)
    requires
        chip.bus_never_fails(),
    ensures
        !chip.may_fail_cal(e),
        !chip.may_fail_measure("temp_msb"@, e),
        !chip.may_fail_measure("press_msb"@, e),
        !chip.may_fail_settings(profile_num, e),
        !chip.may_fail_heater_reads(e),
        profile_num <= 9 ==> !chip.may_fail_configure(profile_num, e),
        profile_num > 9 && chip.may_fail_configure(profile_num, e) ==> e == BME680Error::BusError(
            I2CError::NotFound,
        ),
{
    match e {
        BME680Error::NotFound => {},
        BME680Error::BusError(inner) => {
            lemma_calibration_names_known();
            lemma_driver_fields();
            lemma_gas_wait_names(profile_num);
            lemma_known_name_cannot_fail(chip, "par_t1"@, inner);
            lemma_known_name_cannot_fail(chip, "par_t2"@, inner);
            lemma_known_name_cannot_fail(chip, "par_t3"@, inner);
            lemma_known_name_cannot_fail(chip, "par_p1"@, inner);
            lemma_known_name_cannot_fail(chip, "par_p2"@, inner);
            lemma_known_name_cannot_fail(chip, "par_p3"@, inner);
            lemma_known_name_cannot_fail(chip, "par_p4"@, inner);
            lemma_known_name_cannot_fail(chip, "par_p5"@, inner);
            lemma_known_name_cannot_fail(chip, "par_p6"@, inner);
            lemma_known_name_cannot_fail(chip, "par_p7"@, inner);
            lemma_known_name_cannot_fail(chip, "par_p8"@, inner);
            lemma_known_name_cannot_fail(chip, "par_p9"@, inner);
            lemma_known_name_cannot_fail(chip, "par_p10"@, inner);
            lemma_known_name_cannot_fail(chip, "par_h1"@, inner);
            lemma_known_name_cannot_fail(chip, "par_h2"@, inner);
            lemma_known_name_cannot_fail(chip, "par_h3"@, inner);
            lemma_known_name_cannot_fail(chip, "par_h4"@, inner);
            lemma_known_name_cannot_fail(chip, "par_h5"@, inner);
            lemma_known_name_cannot_fail(chip, "par_h6"@, inner);
            lemma_known_name_cannot_fail(chip, "par_h7"@, inner);
            lemma_known_name_cannot_fail(chip, "par_g1"@, inner);
            lemma_known_name_cannot_fail(chip, "par_g2"@, inner);
            lemma_known_name_cannot_fail(chip, "par_g3"@, inner);
            lemma_known_name_cannot_fail(chip, "mode"@, inner);
            lemma_known_name_cannot_fail(chip, "temp_msb"@, inner);
            lemma_known_name_cannot_fail(chip, "press_msb"@, inner);
            lemma_known_name_cannot_fail(chip, "osrs_h"@, inner);
            lemma_known_name_cannot_fail(chip, "osrs_t"@, inner);
            lemma_known_name_cannot_fail(chip, "osrs_p"@, inner);
            lemma_known_name_cannot_fail(chip, "filter"@, inner);
            lemma_known_name_cannot_fail(chip, "gas_range_r"@, inner);
            lemma_known_name_cannot_fail(chip, "run_gas"@, inner);
            lemma_known_name_cannot_fail(chip, "nb_conv"@, inner);
            lemma_known_name_cannot_fail(chip, "res_heat_range"@, inner);
            lemma_known_name_cannot_fail(chip, "res_heat_val"@, inner);
            lemma_read_reg_cannot_fail(chip, 0xea, inner);
            lemma_read_reg_cannot_fail(chip, 0x8b, inner);
            lemma_read_reg_cannot_fail(chip, 0x8f, inner);
            lemma_read_reg_cannot_fail(chip, 0x91, inner);
            lemma_read_reg_cannot_fail(chip, 0x95, inner);
            lemma_read_reg_cannot_fail(chip, 0x97, inner);
            lemma_read_reg_cannot_fail(chip, 0x9d, inner);
            lemma_read_reg_cannot_fail(chip, 0x9f, inner);
            lemma_read_reg_cannot_fail(chip, 0xe3, inner);
            lemma_read_reg_cannot_fail(chip, 0xe2, inner);
            lemma_read_reg_cannot_fail(chip, 0xec, inner);
            let gas_wait = spec_indexed_name("gas_wait_"@, profile_num);
            if profile_num <= 9 {
                lemma_known_name_cannot_fail(chip, gas_wait, inner);
            } else {
                lemma_unknown_name_is_not_found(chip, gas_wait);
            }
        },
    }
}

/// On a bus that cannot fail, the write of the heater's resistance byte for
/// a profile up to 9 does not fail; for a profile above 9 it can only end in
/// the accessor's `NotFound`.
pub proof fn lemma_heater_write_on_working_bus<I2C: I2CProvider>(
    bme: BME680<I2C>,
    target_temp: i16,
    profile_num: u8,
    e: BME680Error,
)
    requires
        bme.chip.bus_never_fails(),
        bme.may_write_heater(target_temp, profile_num, Some(e)),
    ensures
        profile_num > 9,
        e == BME680Error::BusError(I2CError::NotFound),
{
    lemma_res_heat_names(profile_num);
    let res_heat = spec_indexed_name("res_heat_"@, profile_num);
    match e {
        BME680Error::NotFound => {},
        BME680Error::BusError(inner) => {
            if profile_num <= 9 {
                lemma_known_name_cannot_fail(bme.chip, res_heat, inner);
            } else {
                lemma_unknown_name_is_not_found(bme.chip, res_heat);
            }
        },
    }
}

/// On a bus that cannot fail, making a driver succeeds.
pub proof fn lemma_driver_made_on_working_bus<I2C: I2CProvider>(
    i2c: I2C,
    i2c_addr: u8,
    r: Result<BME680<I2C>, BME680Error>,
)
    requires
        BME680::may_make(i2c, i2c_addr, r),
        (Chip::<I2C, BME680FieldMap> { i2c, i2c_addr, _map: PhantomData }).bus_never_fails(),
    ensures
        r is Ok,
{
    if let Err(e) = r {
        lemma_working_bus(Chip::<I2C, BME680FieldMap> { i2c, i2c_addr, _map: PhantomData }, 0, e);
    }
}

/// On a bus that cannot fail, setting the heater can only fail for a
/// profile above 9, and then with the accessor's `NotFound`: a missing
/// field is told from a failure on the bus.
pub proof fn lemma_heater_failure_on_working_bus<I2C: I2CProvider>(
    before: BME680<I2C>,
    after: BME680<I2C>,
    target_temp: i16,
    profile_num: u8,
    e: BME680Error,
)
    requires
        before.chip.bus_never_fails(),
        after.chip == before.chip,
        BME680::heater_failed(before, after, target_temp, profile_num, e),
    ensures
        profile_num > 9,
        e == BME680Error::BusError(I2CError::NotFound),
{
    lemma_working_bus(before.chip, profile_num, e);
    lemma_heater_write_on_working_bus(after, target_temp, profile_num, e);
}

} // verus!
