[package]
name = "cap_reformer"
version = "0.1.0"
edition = "2021"
publish = false

[dependencies]
argh = "*"
btleplug = "*"
ctrlc = "*"
futures-lite = "*"
snafu = "*"
tokio = { version = "*", features = ["macros", "rt-multi-thread", "sync", "time"] }
tokio-modbus = { version = "*", default-features = false, features = ["rtu"] }
tokio-serial = { version = "*", default-features = false }
tokio-util = "*"
uuid = "*"
