[package]
name = "library"
version = "0.1.0"
edition = "2021"
publish = false

[dependencies]
path-clean = "=0.1.0"
tide = "0.16"
sqlx = { version = "0.8", default-features = false, features = ["postgres", "runtime-async-std", "migrate"] }
surf = { version = "2", default-features = false, features = ["h1-client"] }
crossbeam-channel = "0.5"
async-std = { version = "1", features = ["attributes"] }
clap = "4"
flexi_logger = { version = "0.29", default-features = false }
log = "0.4"
once_cell = "1"
parking_lot = "0.12"
serde = { version = "1", features = ["derive"] }
serde_json = "1"
async-process = "2"
