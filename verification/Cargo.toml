[package]
name = "minimal-usb"
version = "0.1.0"
edition = "2021"
publish = false

[dependencies]
postcard = { version = "=1.1.3", features = ["alloc"] }
serde = { version = "=1.0.229", features = ["derive"] }
anyhow = "1"
bytes = "1"
cfg-if = "1"
clap = { version = "=4.6.7", features = ["derive"] }
futures = "=0.3.34"
serde_yaml = "=0.9.34"
tokio = { version = "=1.54.1", features = ["full"] }
tokio-serial = { version = "=5.5.0", features = ["serde"] }
tokio-util = { version = "=0.7.20", features = ["codec"] }
tracing-subscriber = "0.3"
defmt = "=0.3.101"
embassy-futures = "=0.1.2"
embassy-sync = "=0.5.0"
embassy-time = "=0.3.2"
embassy-usb = { version = "=0.1.0", default-features = false }
embedded-graphics = "=0.8.2"
ssd1306 = "=0.8.4"
static_cell = "=2.1.1"
cortex-m-rt = "=0.7.7"
defmt-rtt = "=0.4.2"
embassy-executor = { version = "=0.5.1", features = ["arch-std", "executor-thread"] }
embassy-rp = "=0.1.0"
panic-probe = "=0.3.2"
