[package]
name = "esp-csi-cli"
version = "0.8.0"
edition = "2021"
publish = false

[dependencies]
heapless = "=0.8.0"
menu = { version = "=0.6.1", default-features = false }
embedded-io = "=0.6.1"
embedded-io-async = "=0.6.1"
esp-csi-rs = "=0.13.0"
esp-hal = "=1.2.2"
esp-radio = "=1.0.0-beta.1"
esp-rtos = "=0.4.0"
esp-alloc = "=0.11.0"
esp-backtrace = "=0.20.0"
esp-bootloader-esp-idf = "=0.6.0"
embassy-executor = "=0.10.0"
embassy-futures = "=0.1.2"
embassy-sync = "=0.8.0"
embassy-time = "=0.5.1"
static_cell = "=2.1.1"
