use embassy_nrf::twim::Error as TwimError;
use nrf52_rust_primer::bme680_map::BME680FieldMap;
use nrf52_rust_primer::chip::{Chip, I2CError, I2CProvider};
use std::cell::{Cell, RefCell};
use std::marker::PhantomData;

/// A device that is a plain register file. It can be told to fail the
/// transfer with a given number, counted from zero.
struct FakeBus {
    regs: RefCell<Vec<u8>>,
    transfers: Cell<usize>,
    fail_at: Option<usize>,
    reads: RefCell<Vec<(u8, u8, usize)>>,
    writes: RefCell<Vec<(u8, u8, u8)>>,
}

impl FakeBus {
    fn new() -> Self {
        FakeBus {
            regs: RefCell::new(vec![0u8; 256]),
            transfers: Cell::new(0),
            fail_at: None,
            reads: RefCell::new(Vec::new()),
            writes: RefCell::new(Vec::new()),
        }
    }

    fn failing_at(n: usize) -> Self {
        let mut bus = FakeBus::new();
        bus.fail_at = Some(n);
        bus
    }

    fn set(&self, reg: u8, val: u8) {
        self.regs.borrow_mut()[reg as usize] = val;
    }

    fn get(&self, reg: u8) -> u8 {
        self.regs.borrow()[reg as usize]
    }

    fn step(&self) -> Result<(), I2CError> {
        let n = self.transfers.get();
        self.transfers.set(n + 1);
        if self.fail_at == Some(n) {
            Err(I2CError::I2CError(TwimError::AddressNack))
        } else {
            Ok(())
        }
    }
}

impl I2CProvider for FakeBus {
    fn write_read(&self, i2c_address: u8, reg: u8, reg_vals: &mut [u8]) -> Result<(), I2CError> {
        self.step()?;
        self.reads.borrow_mut().push((i2c_address, reg, reg_vals.len()));
        let regs = self.regs.borrow();
        for (i, v) in reg_vals.iter_mut().enumerate() {
            *v = regs[(reg as usize + i) % 256];
        }
        Ok(())
    }

    fn write(&self, i2c_address: u8, reg: u8, reg_val: u8) -> Result<(), I2CError> {
        self.step()?;
        self.writes.borrow_mut().push((i2c_address, reg, reg_val));
        self.regs.borrow_mut()[reg as usize] = reg_val;
        Ok(())
    }
}

fn sensor(bus: FakeBus) -> Chip<FakeBus, BME680FieldMap> {
    Chip { i2c: bus, i2c_addr: 0x76, _map: PhantomData }
}

#[test]
fn new_generic_keeps_transport_and_address() {
    let chip = Chip::new_generic(FakeBus::new(), 0x77);
    assert_eq!(chip.i2c_addr, 0x77);
    assert_eq!(chip.i2c.transfers.get(), 0);
}

#[test]
fn read_regs_reads_consecutive_registers() {
    let bus = FakeBus::new();
    for r in 0..=255u8 {
        bus.set(r, r);
    }
    let chip = Chip::new_generic(bus, 0x76);
    let mut buf = [0u8; 4];
    chip.read_regs(0x74, &mut buf).unwrap();
    assert_eq!(buf, [0x74, 0x75, 0x76, 0x77]);
    assert_eq!(*chip.i2c.reads.borrow(), vec![(0x76, 0x74, 4)]);
}

#[test]
fn read_regs_uses_the_address_of_the_device() {
    let chip = Chip::new_generic(FakeBus::new(), 0x29);
    let mut buf = [0u8; 2];
    chip.read_regs(0x01, &mut buf).unwrap();
    chip.write_reg(0x02, 0x03).unwrap();
    assert_eq!(*chip.i2c.reads.borrow(), vec![(0x29, 0x01, 2)]);
    assert_eq!(*chip.i2c.writes.borrow(), vec![(0x29, 0x02, 0x03)]);
}

#[test]
fn write_reg_then_read_reg_gives_the_byte() {
    let chip = Chip::new_generic(FakeBus::new(), 0x76);
    chip.write_reg(0x74, 0b1110_0011).unwrap();
    assert_eq!(chip.read_reg(0x74).unwrap(), 0b1110_0011);
    chip.write_reg(0x74, 0b0001_1100).unwrap();
    assert_eq!(chip.read_reg(0x74).unwrap(), 0b0001_1100);
}

#[test]
fn read_reg_is_one_transfer_of_one_byte() {
    let bus = FakeBus::new();
    bus.set(0xd0, 0x61);
    let chip = Chip::new_generic(bus, 0x76);
    assert_eq!(chip.read_reg(0xd0).unwrap(), 0x61);
    assert_eq!(*chip.i2c.reads.borrow(), vec![(0x76, 0xd0, 1)]);
    assert!(chip.i2c.writes.borrow().is_empty());
}

#[test]
fn a_failed_transfer_is_a_bus_error() {
    let chip = Chip::new_generic(FakeBus::failing_at(0), 0x76);
    assert!(matches!(chip.read_reg(0xd0), Err(I2CError::I2CError(TwimError::AddressNack))));
    let chip = Chip::new_generic(FakeBus::failing_at(0), 0x76);
    assert!(matches!(chip.write_reg(0xd0, 1), Err(I2CError::I2CError(TwimError::AddressNack))));
    let chip = Chip::new_generic(FakeBus::failing_at(0), 0x76);
    let mut buf = [0u8; 3];
    assert!(matches!(
        chip.read_regs(0x22, &mut buf),
        Err(I2CError::I2CError(TwimError::AddressNack))
    ));
}

#[test]
fn read_field_extracts_the_bits() {
    let bus = FakeBus::new();
    bus.set(0x74, 0b1011_0110);
    let chip = sensor(bus);
    assert_eq!(chip.read_field("osrs_t").unwrap(), 0b101);
    assert_eq!(chip.read_field("osrs_p").unwrap(), 0b101);
    assert_eq!(chip.read_field("mode").unwrap(), 0b10);
    assert_eq!(chip.read_field("ctrl_meas").unwrap(), 0b1011_0110);
}

#[test]
fn read_field_reads_the_register_of_the_field() {
    let bus = FakeBus::new();
    bus.set(0x02, 0b0010_0000);
    let chip = sensor(bus);
    assert_eq!(chip.read_field("res_heat_range").unwrap(), 0b10);
    assert_eq!(*chip.i2c.reads.borrow(), vec![(0x76, 0x02, 1)]);
}

#[test]
fn write_field_replaces_the_bits_and_keeps_the_others() {
    let bus = FakeBus::new();
    bus.set(0x74, 0b1110_0011);
    let chip = sensor(bus);
    chip.write_field("osrs_p", 0b101).unwrap();
    assert_eq!(chip.i2c.get(0x74), 0b1111_0111);
    assert_eq!(chip.read_field("osrs_p").unwrap(), 0b101);
    assert_eq!(chip.read_field("osrs_t").unwrap(), 0b111);
    assert_eq!(chip.read_field("mode").unwrap(), 0b11);
}

#[test]
fn write_field_reads_then_writes_the_same_register() {
    let bus = FakeBus::new();
    bus.set(0x75, 0b1010_0001);
    let chip = sensor(bus);
    chip.write_field("filter", 0b010).unwrap();
    assert_eq!(*chip.i2c.reads.borrow(), vec![(0x76, 0x75, 1)]);
    assert_eq!(*chip.i2c.writes.borrow(), vec![(0x76, 0x75, 0b1010_1001)]);
}

#[test]
fn write_field_then_read_field_round_trip() {
    for name in ["osrs_t", "osrs_p", "mode", "osrs_h", "filter", "run_gas", "nb_conv",
        "ctrl_gas_0", "heat_off", "gas_wait_3", "res_heat_9"]
    {
        for start in [0x00u8, 0xff, 0x5a, 0xa5] {
            let probe = sensor(FakeBus::new());
            probe.write_field(name, 0xff).unwrap();
            let max = probe.read_field(name).unwrap();
            for v in 0..=max {
                let bus = FakeBus::new();
                for r in 0..=255u8 {
                    bus.set(r, start);
                }
                let chip = sensor(bus);
                chip.write_field(name, v).unwrap();
                assert_eq!(chip.read_field(name).unwrap(), v, "{} {}", name, v);
            }
        }
    }
}

#[test]
fn write_field_drops_the_bits_above_the_width() {
    let chip = sensor(FakeBus::new());
    chip.write_field("mode", 0b111).unwrap();
    assert_eq!(chip.i2c.get(0x74), 0b11);
    assert_eq!(chip.read_field("mode").unwrap(), 0b11);
}

#[test]
fn write_field_does_not_look_at_the_writable_mark() {
    let chip = sensor(FakeBus::new());
    chip.write_field("gas_range_r", 4).unwrap();
    assert_eq!(chip.i2c.get(0x2b), 0x04);
}

#[test]
fn write_field_writes_nothing_when_the_read_fails() {
    let chip = sensor(FakeBus::failing_at(0));
    assert!(matches!(
        chip.write_field("mode", 1),
        Err(I2CError::I2CError(TwimError::AddressNack))
    ));
    assert!(chip.i2c.writes.borrow().is_empty());
    assert_eq!(chip.i2c.transfers.get(), 1);
}

#[test]
fn write_field_reports_a_failed_write() {
    let chip = sensor(FakeBus::failing_at(1));
    assert!(matches!(
        chip.write_field("mode", 1),
        Err(I2CError::I2CError(TwimError::AddressNack))
    ));
    assert_eq!(chip.i2c.get(0x74), 0);
}

#[test]
fn an_unknown_name_is_not_found_and_makes_no_transfer() {
    let chip = sensor(FakeBus::new());
    let mut buf = [7u8; 2];
    assert!(matches!(chip.read_field("no_such_field"), Err(I2CError::NotFound)));
    assert!(matches!(chip.write_field("no_such_field", 1), Err(I2CError::NotFound)));
    assert!(matches!(chip.read_reg_str("no_such_field"), Err(I2CError::NotFound)));
    assert!(matches!(chip.write_reg_str("no_such_field", 1), Err(I2CError::NotFound)));
    assert!(matches!(chip.read_regs_str("no_such_field", &mut buf), Err(I2CError::NotFound)));
    assert_eq!(buf, [7, 7]);
    assert_eq!(chip.i2c.transfers.get(), 0);
}

#[test]
fn a_device_without_directory_knows_no_name() {
    let chip = Chip::new_generic(FakeBus::new(), 0x76);
    assert!(matches!(chip.read_field("status"), Err(I2CError::NotFound)));
    assert!(matches!(chip.write_field("status", 0), Err(I2CError::NotFound)));
    assert_eq!(chip.i2c.transfers.get(), 0);
}

#[test]
fn read_regs_str_starts_at_the_register_of_the_field() {
    let bus = FakeBus::new();
    bus.set(0x72, 0x11);
    bus.set(0x73, 0x22);
    bus.set(0x74, 0x33);
    bus.set(0x75, 0x44);
    let chip = sensor(bus);
    let mut buf = [0u8; 4];
    chip.read_regs_str("Ctrl_hum", &mut buf).unwrap();
    assert_eq!(buf, [0x11, 0x22, 0x33, 0x44]);
}

#[test]
fn read_reg_str_gives_the_whole_register() {
    let bus = FakeBus::new();
    bus.set(0x74, 0b1011_0110);
    let chip = sensor(bus);
    assert_eq!(chip.read_reg_str("osrs_t").unwrap(), 0b1011_0110);
}

#[test]
fn write_reg_str_writes_the_whole_register() {
    let bus = FakeBus::new();
    bus.set(0x74, 0xff);
    let chip = sensor(bus);
    chip.write_reg_str("osrs_t", 0b101).unwrap();
    assert_eq!(chip.i2c.get(0x74), 0b101);
    assert_eq!(*chip.i2c.writes.borrow(), vec![(0x76, 0x74, 0b101)]);
    assert!(chip.i2c.reads.borrow().is_empty());
}

#[test]
fn a_bus_error_converts_into_an_access_error() {
    assert!(matches!(
        I2CError::from(TwimError::Timeout),
        I2CError::I2CError(TwimError::Timeout)
    ));
}

#[test]
fn two_devices_on_one_kind_of_bus_keep_apart() {
    let a = Chip::new_generic(FakeBus::new(), 0x76);
    let b = Chip::new_generic(FakeBus::new(), 0x77);
    a.write_reg(0x10, 0xaa).unwrap();
    b.write_reg(0x10, 0x55).unwrap();
    assert_eq!(a.read_reg(0x10).unwrap(), 0xaa);
    assert_eq!(b.read_reg(0x10).unwrap(), 0x55);
}

/// Two devices on one bus: each has its own registers, found by address.
struct SharedBus {
    devices: RefCell<Vec<(u8, Vec<u8>)>>,
    busy: Cell<bool>,
}

impl SharedBus {
    fn with(addresses: &[u8]) -> Self {
        SharedBus {
            devices: RefCell::new(addresses.iter().map(|a| (*a, vec![0u8; 256])).collect()),
            busy: Cell::new(false),
        }
    }
}

impl I2CProvider for &SharedBus {
    fn write_read(&self, i2c_address: u8, reg: u8, reg_vals: &mut [u8]) -> Result<(), I2CError> {
        assert!(!self.busy.replace(true));
        let devices = self.devices.borrow();
        let found = devices.iter().find(|d| d.0 == i2c_address);
        let r = match found {
            Some(device) => {
                for (i, v) in reg_vals.iter_mut().enumerate() {
                    *v = device.1[(reg as usize + i) % 256];
                }
                Ok(())
            }
            None => Err(I2CError::I2CError(TwimError::AddressNack)),
        };
        self.busy.set(false);
        r
    }

    fn write(&self, i2c_address: u8, reg: u8, reg_val: u8) -> Result<(), I2CError> {
        assert!(!self.busy.replace(true));
        let mut devices = self.devices.borrow_mut();
        let found = devices.iter_mut().find(|d| d.0 == i2c_address);
        let r = match found {
            Some(device) => {
                device.1[reg as usize] = reg_val;
                Ok(())
            }
            None => Err(I2CError::I2CError(TwimError::AddressNack)),
        };
        self.busy.set(false);
        r
    }
}

#[test]
fn interleaved_accesses_to_two_addresses_do_not_disturb_each_other() {
    let bus = SharedBus::with(&[0x76, 0x77]);
    let a: Chip<&SharedBus, BME680FieldMap> = Chip { i2c: &bus, i2c_addr: 0x76, _map: PhantomData };
    let b: Chip<&SharedBus, BME680FieldMap> = Chip { i2c: &bus, i2c_addr: 0x77, _map: PhantomData };
    for round in 0..50u8 {
        a.write_reg(0x10, round).unwrap();
        b.write_reg(0x10, !round).unwrap();
        a.write_field("osrs_t", round & 7).unwrap();
        b.write_field("osrs_p", round & 7).unwrap();
        assert_eq!(a.read_reg(0x10).unwrap(), round);
        assert_eq!(b.read_reg(0x10).unwrap(), !round);
        assert_eq!(a.read_field("osrs_t").unwrap(), round & 7);
        assert_eq!(a.read_field("osrs_p").unwrap(), 0);
        assert_eq!(b.read_field("osrs_p").unwrap(), round & 7);
        assert_eq!(b.read_field("osrs_t").unwrap(), 0);
    }
}

#[test]
fn an_address_without_device_fails_on_the_bus() {
    let bus = SharedBus::with(&[0x76]);
    let c = Chip::new_generic(&bus, 0x29);
    assert!(matches!(c.read_reg(0x00), Err(I2CError::I2CError(TwimError::AddressNack))));
    assert!(matches!(c.write_reg(0x00, 1), Err(I2CError::I2CError(TwimError::AddressNack))));
}
