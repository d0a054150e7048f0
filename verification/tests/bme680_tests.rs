use embassy_nrf::twim::Error as TwimError;
use nrf52_rust_primer::bme680::{BME680Error, CalCodes, BME680};
use nrf52_rust_primer::chip::{I2CError, I2CProvider};
use std::cell::{Cell, RefCell};

/// A sensor that is a plain register file. It can be told to fail the
/// transfer with a given number, counted from zero.
struct FakeSensor {
    regs: RefCell<Vec<u8>>,
    transfers: Cell<usize>,
    fail_at: Cell<Option<usize>>,
    reads: RefCell<Vec<(u8, u8, usize)>>,
    writes: RefCell<Vec<(u8, u8, u8)>>,
}

/// The number of single-register reads that fetch the calibration.
const CAL_READS: usize = 34;

impl FakeSensor {
    /// A sensor with a usual calibration, a temperature word of 500000
    /// and a pressure word of 350000.
    fn new() -> Self {
        let mut regs = vec![0u8; 256];
        let image: [(u8, u8); 41] = [
            (0xe9, 0x0d), (0xea, 0x66), (0x8a, 0x02), (0x8b, 0x67), (0x8c, 0x03),
            (0x8e, 0x7d), (0x8f, 0x8e), (0x90, 0x43), (0x91, 0xd6), (0x92, 0x58),
            (0x94, 0x78), (0x95, 0x1b), (0x96, 0x66), (0x97, 0xff), (0x99, 0x1e),
            (0x98, 0x20), (0x9c, 0x20), (0x9d, 0xfc), (0x9e, 0xa0), (0x9f, 0xf2),
            (0xa0, 0x1e), (0xe1, 0x3f), (0xe2, 0x5b), (0xe3, 0x2c), (0xe4, 0x00),
            (0xe5, 0x2d), (0xe6, 0x14), (0xe7, 0x78), (0xe8, 0x9c), (0xed, 0xe2),
            (0xeb, 0xaf), (0xec, 0xe8), (0xee, 0x12), (0x02, 0x16), (0x00, 0x32),
            (0x22, 0x7a), (0x23, 0x12), (0x24, 0x00), (0x1f, 0x55), (0x20, 0x73),
            (0x21, 0x00),
        ];
        for (reg, val) in image {
            regs[reg as usize] = val;
        }
        FakeSensor {
            regs: RefCell::new(regs),
            transfers: Cell::new(0),
            fail_at: Cell::new(None),
            reads: RefCell::new(Vec::new()),
            writes: RefCell::new(Vec::new()),
        }
    }

    fn failing_at(n: usize) -> Self {
        let sensor = FakeSensor::new();
        sensor.fail_at.set(Some(n));
        sensor
    }

    /// Makes the next transfer but `n` fail.
    fn fail_after(&self, n: usize) {
        self.fail_at.set(Some(self.transfers.get() + n));
    }

    fn set(&self, reg: u8, val: u8) {
        self.regs.borrow_mut()[reg as usize] = val;
    }

    fn get(&self, reg: u8) -> u8 {
        self.regs.borrow()[reg as usize]
    }

    fn forget(&self) {
        self.reads.borrow_mut().clear();
        self.writes.borrow_mut().clear();
    }

    fn step(&self) -> Result<(), I2CError> {
        let n = self.transfers.get();
        self.transfers.set(n + 1);
        if self.fail_at.get() == Some(n) {
            Err(I2CError::I2CError(TwimError::DataNack))
        } else {
            Ok(())
        }
    }
}

impl I2CProvider for FakeSensor {
    fn write_read(&self, i2c_address: u8, reg: u8, reg_vals: &mut [u8]) -> Result<(), I2CError> {
        self.step()?;
        self.reads.borrow_mut().push((i2c_address, reg, reg_vals.len()));
        let regs = self.regs.borrow();
        for (i, v) in reg_vals.iter_mut().enumerate() {
            *v = regs[(reg as usize + i) % 256];
        }
        Ok(())
    }

    fn write(&self, i2c_address: u8, reg: u8, reg_val: u8) -> Result<(), I2CError> {
        self.step()?;
        self.writes.borrow_mut().push((i2c_address, reg, reg_val));
        self.regs.borrow_mut()[reg as usize] = reg_val;
        Ok(())
    }
}

fn driver() -> BME680<FakeSensor> {
    let bme = BME680::new(FakeSensor::new(), 0x76).unwrap();
    bme.chip.i2c.forget();
    bme
}

fn is_bus_failure<T>(r: &Result<T, BME680Error>) -> bool {
    matches!(r, Err(BME680Error::BusError(I2CError::I2CError(TwimError::DataNack))))
}

fn is_not_found<T>(r: &Result<T, BME680Error>) -> bool {
    matches!(r, Err(BME680Error::BusError(I2CError::NotFound)))
}

#[test]
fn new_reads_the_calibration() {
    let bme = BME680::new(FakeSensor::new(), 0x76).unwrap();
    let cal = &bme.cal_codes;
    assert_eq!(cal.par_t1, 26125);
    assert_eq!(cal.par_t2, 26370);
    assert_eq!(cal.par_t3, 3);
    assert_eq!(cal.par_p1, 36477);
    assert_eq!(cal.par_p2, -10685);
    assert_eq!(cal.par_p3, 88);
    assert_eq!(cal.par_p4, 7032);
    assert_eq!(cal.par_p5, -154);
    assert_eq!(cal.par_p6, 30);
    assert_eq!(cal.par_p7, 32);
    assert_eq!(cal.par_p8, -992);
    assert_eq!(cal.par_p9, -3424);
    assert_eq!(cal.par_p10, 30);
    assert_eq!(cal.par_h1, 715);
    assert_eq!(cal.par_h2, 1013);
    assert_eq!(cal.par_h3, 0);
    assert_eq!(cal.par_h4, 45);
    assert_eq!(cal.par_h5, 20);
    assert_eq!(cal.par_h6, 120);
    assert_eq!(cal.par_h7, -100);
    assert_eq!(cal.par_g1, -30);
    assert_eq!(cal.par_g2, -5969);
    assert_eq!(cal.par_g3, 18);
    assert_eq!(cal.res_heat_range, 0);
    assert_eq!(cal.res_heat_val, 0);
    assert_eq!(cal.gas_adc, 0);
    assert_eq!(cal.gas_range, 0);
    assert_eq!(cal.range_switching_error, 0);
}

#[test]
fn new_starts_without_a_temperature() {
    let bme = BME680::new(FakeSensor::new(), 0x77).unwrap();
    assert_eq!(bme.temp_comp, 0);
    assert_eq!(bme.t_fine, 0);
    assert_eq!(bme.chip.i2c_addr, 0x77);
}

#[test]
fn new_reads_each_calibration_register_once_and_in_order() {
    let bme = BME680::new(FakeSensor::new(), 0x76).unwrap();
    let order: Vec<u8> = vec![
        0xe9, 0xea, 0x8a, 0x8b, 0x8c, 0x8e, 0x8f, 0x90, 0x91, 0x92, 0x94, 0x95, 0x96, 0x97, 0x99,
        0x98, 0x9c, 0x9d, 0x9e, 0x9f, 0xa0, 0xe2, 0xe3, 0xe1, 0xe2, 0xe4, 0xe5, 0xe6, 0xe7, 0xe8,
        0xed, 0xeb, 0xec, 0xee,
    ];
    assert_eq!(order.len(), CAL_READS);
    let reads = bme.chip.i2c.reads.borrow();
    assert_eq!(reads.len(), CAL_READS);
    for (i, reg) in order.iter().enumerate() {
        assert_eq!(reads[i], (0x76, *reg, 1));
    }
    assert!(bme.chip.i2c.writes.borrow().is_empty());
}

#[test]
fn new_fails_when_the_first_read_fails() {
    let r = BME680::new(FakeSensor::failing_at(0), 0x76);
    assert!(is_bus_failure(&r));
}

#[test]
fn new_fails_when_any_calibration_read_fails() {
    for n in 0..CAL_READS {
        let r = BME680::new(FakeSensor::failing_at(n), 0x76);
        assert!(is_bus_failure(&r), "read {}", n);
    }
    assert!(BME680::new(FakeSensor::failing_at(CAL_READS), 0x76).is_ok());
}

#[test]
fn read_cal_codes_reads_the_registers_anew() {
    let mut bme = driver();
    bme.chip.i2c.set(0xe9, 0x01);
    bme.chip.i2c.set(0xea, 0x02);
    bme.chip.i2c.set(0xed, 0x7f);
    bme.cal_codes.gas_range = 9;
    bme.read_cal_codes().unwrap();
    assert_eq!(bme.cal_codes.par_t1, 0x0201);
    assert_eq!(bme.cal_codes.par_g1, 127);
    assert_eq!(bme.cal_codes.par_t2, 26370);
    assert_eq!(bme.cal_codes.gas_range, 9);
}

#[test]
fn read_cal_codes_keeps_the_calibration_when_a_read_fails() {
    let mut bme = driver();
    bme.chip.i2c.set(0xe9, 0x01);
    bme.chip.i2c.fail_after(10);
    let r = bme.read_cal_codes();
    assert!(is_bus_failure(&r));
    assert_eq!(bme.cal_codes.par_t1, 26125);
    assert_eq!(bme.chip.i2c.reads.borrow().len(), 10);
}

#[test]
fn calibrate_temperature_gives_the_reference_value() {
    let mut bme = driver();
    assert_eq!(bme.calibrate_temperature(500_000), 2578);
    assert_eq!(bme.temp_comp, 2578);
    assert_eq!(bme.t_fine, 131_996);
    assert_eq!(bme.calibrate_temperature(400_000), -566);
    assert_eq!(bme.temp_comp, -566);
    assert_eq!(bme.t_fine, -28_971);
}

#[test]
fn calibrate_temperature_makes_no_transfer() {
    let mut bme = driver();
    bme.calibrate_temperature(500_000);
    assert!(bme.chip.i2c.reads.borrow().is_empty());
    assert!(bme.chip.i2c.writes.borrow().is_empty());
}

#[test]
fn read_temperature_measures_and_compensates() {
    let mut bme = driver();
    bme.chip.i2c.set(0x74, 0b1011_0100);
    assert_eq!(bme.read_temperature().unwrap(), 2578);
    assert_eq!(bme.temp_comp, 2578);
    assert_eq!(bme.t_fine, 131_996);
    // Forced mode was set, the oversampling bits were kept.
    assert_eq!(bme.chip.i2c.get(0x74), 0b1011_0101);
    assert_eq!(*bme.chip.i2c.reads.borrow(), vec![(0x76, 0x74, 1), (0x76, 0x22, 3)]);
    assert_eq!(*bme.chip.i2c.writes.borrow(), vec![(0x76, 0x74, 0b1011_0101)]);
}

#[test]
fn read_temperature_uses_all_twenty_bits() {
    let mut bme = driver();
    bme.chip.i2c.set(0x22, 0x61);
    bme.chip.i2c.set(0x23, 0xa8);
    bme.chip.i2c.set(0x24, 0x0f);
    // The word is 0x61a80: the low nibble of the last register does not count.
    assert_eq!(bme.read_temperature().unwrap(), -566);
    bme.chip.i2c.set(0x24, 0x1f);
    let t = bme.read_temperature().unwrap();
    assert_eq!(bme.t_fine, bme.cal_codes.fine_temperature(0x61a81));
    assert_eq!(t, bme.temp_comp);
}

#[test]
fn read_temperature_keeps_the_cache_when_a_transfer_fails() {
    for n in 0..3 {
        let mut bme = driver();
        bme.calibrate_temperature(400_000);
        bme.chip.i2c.fail_after(n);
        let r = bme.read_temperature();
        assert!(is_bus_failure(&r), "transfer {}", n);
        assert_eq!(bme.temp_comp, -566);
        assert_eq!(bme.t_fine, -28_971);
    }
}

#[test]
fn calibrate_pressure_gives_the_reference_value() {
    let mut bme = driver();
    bme.calibrate_temperature(500_000);
    assert_eq!(bme.calibrate_pressure(350_000), 100_470);
    assert_eq!(bme.calibrate_pressure(400_000), 91_872);
    assert_eq!(bme.calibrate_pressure(300_000), 109_094);
}

#[test]
fn read_pressure_measures_and_compensates() {
    let mut bme = driver();
    bme.read_temperature().unwrap();
    bme.chip.i2c.forget();
    assert_eq!(bme.read_pressure().unwrap(), 100_470);
    assert_eq!(*bme.chip.i2c.reads.borrow(), vec![(0x76, 0x74, 1), (0x76, 0x1f, 3)]);
    assert_eq!(*bme.chip.i2c.writes.borrow(), vec![(0x76, 0x74, 0b01)]);
    assert_eq!(bme.temp_comp, 2578);
}

#[test]
fn read_pressure_without_a_temperature_uses_a_fine_temperature_of_zero() {
    let bme = driver();
    assert_eq!(bme.read_pressure().unwrap(), 96_153);
}

#[test]
fn read_pressure_reports_a_failed_transfer() {
    for n in 0..3 {
        let bme = driver();
        bme.chip.i2c.fail_after(n);
        assert!(is_bus_failure(&bme.read_pressure()), "transfer {}", n);
    }
}

#[test]
fn set_gas_wait_writes_the_register_of_the_profile() {
    for profile in 0..10u8 {
        let mut bme = driver();
        bme.set_gas_wait(0x59, profile).unwrap();
        assert_eq!(bme.chip.i2c.get(0x64 + profile), 0x59);
        assert_eq!(*bme.chip.i2c.writes.borrow(), vec![(0x76, 0x64 + profile, 0x59)]);
    }
}

#[test]
fn set_gas_wait_knows_ten_profiles() {
    for profile in [10u8, 11, 99, 100, 255] {
        let mut bme = driver();
        let r = bme.set_gas_wait(0x59, profile);
        assert!(is_not_found(&r), "profile {}", profile);
        assert_eq!(bme.chip.i2c.transfers.get(), CAL_READS);
    }
}

#[test]
fn set_heater_temp_writes_the_resistance_of_the_profile() {
    let mut bme = driver();
    bme.calibrate_temperature(500_000);
    bme.set_heater_temp(300, 2).unwrap();
    assert_eq!(bme.chip.i2c.get(0x5c), 111);
    assert_eq!(
        *bme.chip.i2c.reads.borrow(),
        vec![(0x76, 0x02, 1), (0x76, 0x00, 1), (0x76, 0x5c, 1)]
    );
    assert_eq!(*bme.chip.i2c.writes.borrow(), vec![(0x76, 0x5c, 111)]);
    bme.set_heater_temp(200, 9).unwrap();
    assert_eq!(bme.chip.i2c.get(0x63), 84);
}

#[test]
fn set_heater_temp_uses_the_correction_values_of_the_sensor() {
    let mut bme = driver();
    bme.calibrate_temperature(500_000);
    bme.chip.i2c.set(0x02, 0xff);
    bme.chip.i2c.set(0x00, 0xff);
    bme.set_heater_temp(300, 0).unwrap();
    let expected = bme.cal_codes.heater_resistance(25, 300, 3, 255);
    assert_eq!(bme.chip.i2c.get(0x5a), expected);
}

#[test]
fn set_heater_temp_measures_when_no_temperature_is_cached() {
    let mut bme = driver();
    bme.set_heater_temp(300, 0).unwrap();
    assert_eq!(bme.temp_comp, 2578);
    assert_eq!(bme.t_fine, 131_996);
    assert_eq!(bme.chip.i2c.get(0x74) & 0b11, 0b01);
    assert_eq!(bme.chip.i2c.get(0x5a), 111);
}

#[test]
fn set_heater_temp_keeps_a_cached_temperature() {
    let mut bme = driver();
    bme.calibrate_temperature(400_000);
    bme.set_heater_temp(300, 0).unwrap();
    assert_eq!(bme.temp_comp, -566);
    assert_eq!(bme.t_fine, -28_971);
    assert_eq!(bme.chip.i2c.get(0x74), 0);
    let expected = bme.cal_codes.heater_resistance(-5, 300, 1, 50);
    assert_eq!(bme.chip.i2c.get(0x5a), expected);
}

#[test]
fn set_heater_temp_is_deterministic() {
    let mut first = driver();
    let mut second = driver();
    first.calibrate_temperature(500_000);
    second.calibrate_temperature(500_000);
    second.cal_codes.par_p1 = 1;
    second.cal_codes.par_t1 = 1;
    first.set_heater_temp(320, 4).unwrap();
    second.set_heater_temp(320, 4).unwrap();
    first.set_heater_temp(320, 5).unwrap();
    assert_eq!(first.chip.i2c.get(0x5e), second.chip.i2c.get(0x5e));
    assert_eq!(first.chip.i2c.get(0x5e), first.chip.i2c.get(0x5f));
}

#[test]
fn set_heater_temp_knows_ten_profiles() {
    let mut bme = driver();
    bme.calibrate_temperature(500_000);
    let r = bme.set_heater_temp(300, 10);
    assert!(is_not_found(&r));
    assert!(bme.chip.i2c.writes.borrow().is_empty());
}

#[test]
fn set_heater_temp_reports_a_failed_transfer() {
    for n in 0..4 {
        let mut bme = driver();
        bme.calibrate_temperature(500_000);
        bme.chip.i2c.fail_after(n);
        let r = bme.set_heater_temp(300, 0);
        assert!(is_bus_failure(&r), "transfer {}", n);
        assert_eq!(bme.chip.i2c.get(0x5a), 0);
    }
}

#[test]
fn config_writes_every_setting() {
    let mut bme = driver();
    bme.chip.i2c.set(0x72, 0x40);
    bme.config(1).unwrap();
    let bus = &bme.chip.i2c;
    assert_eq!(bus.get(0x72), 0x45);
    assert_eq!(bus.get(0x74), 0b1011_0101);
    assert_eq!(bus.get(0x75), 0b0000_1000);
    assert_eq!(bus.get(0x2b), 0x04);
    assert_eq!(bus.get(0x71), 0x11);
    assert_eq!(bus.get(0x65), 30);
    assert_eq!(bus.get(0x5b), 111);
    assert_eq!(bme.temp_comp, 2578);
}

#[test]
fn config_writes_in_the_order_of_the_settings() {
    let mut bme = driver();
    bme.calibrate_temperature(500_000);
    bme.config(0).unwrap();
    let regs: Vec<u8> = bme.chip.i2c.writes.borrow().iter().map(|w| w.1).collect();
    assert_eq!(regs, vec![0x72, 0x74, 0x74, 0x75, 0x2b, 0x71, 0x71, 0x64, 0x5a]);
}

#[test]
fn config_selects_the_profile() {
    for profile in 0..10u8 {
        let mut bme = driver();
        bme.config(profile).unwrap();
        assert_eq!(bme.chip.i2c.get(0x71), 0x10 | profile);
        assert_eq!(bme.chip.i2c.get(0x64 + profile), 30);
        assert_eq!(bme.chip.i2c.get(0x5a + profile), 111);
    }
}

#[test]
fn config_fails_for_a_profile_that_is_none() {
    let mut bme = driver();
    let r = bme.config(10);
    assert!(is_not_found(&r));
    // The settings before the gas wait were written.
    assert_eq!(bme.chip.i2c.get(0x72), 0x05);
    assert_eq!(bme.chip.i2c.get(0x71), 0x1a);
}

#[test]
fn config_stops_at_the_first_failure() {
    // Seven field writes of two transfers each, then the gas wait.
    for n in 0..16 {
        let mut bme = driver();
        bme.calibrate_temperature(500_000);
        bme.chip.i2c.fail_after(n);
        let r = bme.config(0);
        assert!(is_bus_failure(&r), "transfer {}", n);
        assert_eq!(bme.chip.i2c.transfers.get(), CAL_READS + n + 1);
        assert_eq!(bme.chip.i2c.get(0x5a), 0);
    }
}

#[test]
fn an_access_error_converts_into_a_driver_error() {
    assert!(matches!(
        BME680Error::from(I2CError::NotFound),
        BME680Error::BusError(I2CError::NotFound)
    ));
    assert!(matches!(
        BME680Error::from(I2CError::I2CError(TwimError::Overrun)),
        BME680Error::BusError(I2CError::I2CError(TwimError::Overrun))
    ));
}

#[test]
fn calibration_can_be_set_by_hand() {
    let mut bme = driver();
    bme.cal_codes = CalCodes::default();
    assert_eq!(bme.calibrate_temperature(500_000), 0);
    assert_eq!(bme.calibrate_pressure(350_000), 0);
}

#[test]
fn the_cached_temperature_is_checked() {
    let mut bme = driver();
    assert!(bme.is_wf());
    bme.calibrate_temperature(500_000);
    assert!(bme.is_wf());
    bme.temp_comp += 1;
    assert!(!bme.is_wf());
    bme.temp_comp -= 1;
    bme.t_fine = 0x400_0000;
    assert!(!bme.is_wf());
    bme.t_fine = -0x400_0000;
    assert!(!bme.is_wf());
}

#[test]
fn a_fresh_driver_can_read_cal_codes_again_and_stay_usable() {
    let mut bme = driver();
    bme.read_temperature().unwrap();
    bme.read_cal_codes().unwrap();
    assert_eq!(bme.temp_comp, 2578);
    assert_eq!(bme.t_fine, 131_996);
    assert!(bme.is_wf());
}

#[test]
fn new_takes_the_third_temperature_coefficient_as_signed() {
    let sensor = FakeSensor::new();
    sensor.set(0x8c, 0xfd);
    let bme = BME680::new(sensor, 0x76).unwrap();
    assert_eq!(bme.cal_codes.par_t3, -3);
}

#[test]
fn read_pressure_asks_for_the_fine_temperature_only() {
    let mut bme = driver();
    bme.calibrate_temperature(500_000);
    bme.temp_comp = 1;
    assert!(!bme.is_wf());
    assert_eq!(bme.read_pressure().unwrap(), 100_470);
}

#[test]
fn a_measured_zero_is_taken_for_no_temperature() {
    let mut bme = driver();
    bme.t_fine = 20;
    bme.temp_comp = 0;
    bme.set_heater_temp(300, 0).unwrap();
    // The heater was set after a new measurement.
    assert_eq!(bme.temp_comp, 2578);
    assert_eq!(bme.chip.i2c.get(0x74) & 0b11, 0b01);
}

#[test]
fn a_failure_is_reported_with_the_error_of_the_bus() {
    for n in 0..CAL_READS {
        let r = BME680::new(FakeSensor::failing_at(n), 0x76);
        assert!(matches!(
            r,
            Err(BME680Error::BusError(I2CError::I2CError(TwimError::DataNack)))
        ));
    }
    let mut bme = driver();
    bme.chip.i2c.fail_after(0);
    assert!(is_bus_failure(&bme.read_cal_codes()));
    bme.chip.i2c.fail_after(1);
    assert!(is_bus_failure(&bme.read_temperature()));
    bme.chip.i2c.fail_after(2);
    assert!(is_bus_failure(&bme.read_pressure()));
}

#[test]
fn a_missing_profile_is_told_from_a_bus_failure() {
    let mut bme = driver();
    bme.calibrate_temperature(500_000);
    assert!(is_not_found(&bme.set_heater_temp(300, 10)));
    assert!(is_not_found(&bme.config(10)));
    bme.chip.i2c.fail_after(0);
    assert!(is_bus_failure(&bme.set_heater_temp(300, 10)));
    bme.chip.i2c.fail_after(3);
    assert!(is_bus_failure(&bme.config(10)));
}

/// The same sensor, lent: the test keeps it and looks at it afterwards.
struct Lent<'a>(&'a FakeSensor);

impl<'a> I2CProvider for Lent<'a> {
    fn write_read(&self, i2c_address: u8, reg: u8, reg_vals: &mut [u8]) -> Result<(), I2CError> {
        self.0.write_read(i2c_address, reg, reg_vals)
    }

    fn write(&self, i2c_address: u8, reg: u8, reg_val: u8) -> Result<(), I2CError> {
        self.0.write(i2c_address, reg, reg_val)
    }
}

#[test]
fn new_stops_at_the_read_that_fails() {
    for n in 0..CAL_READS {
        let sensor = FakeSensor::failing_at(n);
        let r = BME680::new(Lent(&sensor), 0x76);
        assert!(is_bus_failure(&r));
        assert_eq!(sensor.transfers.get(), n + 1);
        assert_eq!(sensor.reads.borrow().len(), n);
        assert!(sensor.writes.borrow().is_empty());
    }
}

#[test]
fn new_only_reads_and_only_at_its_address() {
    let sensor = FakeSensor::new();
    let bme = BME680::new(Lent(&sensor), 0x77).unwrap();
    assert_eq!(bme.chip.i2c_addr, 0x77);
    assert!(sensor.writes.borrow().is_empty());
    assert!(sensor.reads.borrow().iter().all(|r| r.0 == 0x77 && r.2 == 1));
}
