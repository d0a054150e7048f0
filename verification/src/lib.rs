//! Name-addressable register and bit-field access to devices on a serial
//! bus, and a driver for the BME680 environmental sensor built on it.
//!
//! - [`chip_map`]: bit fields of a register, and directories that name them.
//! - [`chip`]: the transport capability and the accessor of one device.
//! - [`bme680_map`]: the register map of the BME680.
//! - [`calibration`]: from the sensor's calibration registers to its
//!   coefficients.
//! - [`compensation`]: the fixed-point formulas that turn raw words into
//!   temperature, pressure and heater resistance.
//! - [`bme680`]: the sensor driver.
//! - [`names`]: comparing field names and forming the names of numbered
//!   fields.
//! - [`dlogger`]: the hold counter for diagnostic output.
//! - [`ble_address`]: the radio's device address as text.

use vstd::prelude::*;

pub mod ble_address;
pub mod bme680;
pub mod bme680_map;
pub mod calibration;
pub mod chip;
pub mod chip_map;
pub mod compensation;
pub mod dlogger;
pub mod names;
