[package]
name = "kasa_power"
version = "0.1.0"
edition = "2021"
publish = false

[dependencies]
async-io = "2"
async-mutex = "1"
chrono = "0.4"
defmt = "0.3"
embassy-executor = { version = "0.7", features = ["arch-std", "executor-thread"] }
embassy-sync = "0.6"
embassy-time = { version = "0.4", features = ["std"] }
esp-backtrace = "*"
esp-idf-hal = "0.45"
esp-idf-svc = "0.51"
esp-idf-sys = "0.36"
esp-println = "*"
serde = { version = "1", features = ["derive"] }
serde_json = "1"
tplink-shome-protocol = "*"
