[package]
name = "ieee802154_radio_sample"
version = "0.1.0"
edition = "2021"
publish = false

[dependencies]
embassy-executor = { version = "=0.7.0", features = ["arch-std", "executor-thread"] }
embassy-futures = "=0.1.2"
embassy-net = { version = "=0.6.0", features = ["proto-ipv4", "proto-ipv6", "medium-ethernet", "medium-ieee802154", "tcp", "udp"] }
embassy-net-driver = "=0.2.0"
embassy-nrf = { version = "=0.3.1", features = ["nrf52840", "time-driver-rtc1", "gpiote", "unstable-pac"] }
embassy-sync = "=0.6.2"
embassy-time = "=0.4.0"
embassy-usb = "=0.4.0"
embedded-io-async = "=0.6.1"
heapless = "=0.8.0"
log = "=0.4.35"
panic-probe = "=1.0.0"
rtos-trace = "=0.2.1"
static_cell = "=2.1.1"
