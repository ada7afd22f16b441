[package]
name = "ironveil"
version = "0.1.0"
edition = "2021"
publish = false

[dependencies]
anyhow = "1"
bootloader = "0.9"
colored = "2"
heapless = "0.8"
indicatif = "0.17"
lazy_static = "1"
log = "0.4"
pc-keyboard = "0.7"
serde = { version = "1", features = ["derive"] }
spin = "0.9"
sysinfo = "0.30"
tempfile = "3"
thiserror = "1"
tokio = { version = "1", features = ["process", "time", "io-util", "rt", "macros"] }
toml = "0.8"
uart_16550 = "0.3"
which = "6"
x86_64 = { version = "0.15", default-features = false, features = ["instructions"] }
