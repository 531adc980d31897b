[package]
name = "embassy-ch58x"
version = "0.1.0"
edition = "2021"
publish = false

[dependencies]
critical-section = "=1.2.0"
embassy-executor = "=0.10.0"
embassy-sync = "=0.8.0"
embassy-time = "=0.5.1"
embassy-time-driver = "=0.2.2"
embassy-time-queue-utils = { version = "=0.3.2", features = ["generic-queue-64"] }
embassy-usb-driver = "=0.2.2"
embedded-hal = "=1.0.0"
embedded-io = "=0.7.1"
embedded-io-async = "=0.7.0"
portable-atomic = "=1.15.0"
qingke = { version = "=0.8.3", features = ["v4c", "unsafe-trust-wch-atomics"] }
