[package]
name = "logger_lib"
version = "0.1.0"
edition = "2021"
publish = false

[dependencies]
heapless = "=0.8.0"
hash32 = "=0.3.1"
embassy-time = { version = "=0.3.2", features = ["std"] }
embassy-sync = { version = "=0.6.2", features = ["std"] }
embedded-crc-macros = "=1.0.0"
num-traits = "=0.2.19"
serde = { version = "=1.0.229", features = ["derive"] }
rmp-serde = "=1.3.1"
uuid = "=1.29.0"
