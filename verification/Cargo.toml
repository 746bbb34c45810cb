[package]
name = "shtc3_beacon"
version = "0.1.0"
edition = "2021"
publish = false

[dependencies]
cortex-m-rt = "=0.7.7"
embassy-executor = { version = "=0.9.1", features = ["arch-std", "executor-thread"] }
embassy-nrf = { version = "=0.11.0", features = ["nrf52840", "time-driver-rtc1", "gpiote"] }
embassy-time = "=0.5.1"
embedded-alloc = "=0.7.0"
embedded-hal = "=1.0.0"
nrf52840-hal = "=0.19.0"
nrf-softdevice = { version = "=0.1.0", features = ["s140", "nrf52840", "ble-peripheral"] }
rtt-target = "=0.6.2"
shtcx = "=1.0.0"
