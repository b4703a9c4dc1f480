[package]
name = "firmware"
version = "0.1.0"
edition = "2021"
publish = false

[dependencies]
midi-convert = "=0.2.0"
usbd-midi = "=0.5.1"
embassy-usb = "=0.6.0"
embassy-usb-logger = "=0.6.0"
embassy-futures = "=0.1.2"
embassy-sync = "=0.8.0"
embassy-time = "=0.5.1"
embassy-executor = "=0.10.0"
embassy-net = "=0.9.1"
picoserve = "=0.20.1"
serde = { version = "=1.0.229", default-features = false, features = ["derive"] }
serde_json = { version = "=1.0.154", default-features = false, features = ["alloc"] }
log = "=0.4.35"
static_cell = "=2.1.1"
edge-dhcp = "=0.8.0"
edge-captive = "=0.8.0"
edge-nal = "=0.7.0"
edge-nal-embassy = "=0.9.0"
esp-hal = "*"
esp-rtos = "*"
esp-radio = "*"
esp-alloc = "*"
esp-backtrace = "*"
esp-println = "*"
esp-bootloader-esp-idf = "*"
