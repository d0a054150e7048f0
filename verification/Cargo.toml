[package]
name = "nrf52_rust_primer"
version = "0.1.0"
edition = "2021"
publish = false

[dependencies]
heapless = "*"
defmt = "*"
defmt-rtt = "*"
cortex-m = "*"
static_cell = "*"
embassy-executor = "*"
embassy-futures = "*"
embassy-hal-internal = "*"
embassy-sync = "*"
embassy-time = "*"
embassy-nrf = { version = "*", features = ["nrf52840", "time-driver-rtc1", "gpiote"] }
nrf-softdevice = { version = "*", features = ["nrf52840", "s140", "ble-peripheral", "ble-gatt-server"] }
