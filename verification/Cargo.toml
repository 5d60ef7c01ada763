[package]
name = "switch_pro_xy"
version = "0.1.0"
edition = "2021"
publish = false

[dependencies]
anyhow = "1"
bluer = { version = "*", features = ["l2cap", "rfcomm", "bluetoothd"] }
clap = { version = "4", features = ["derive"] }
env_logger = "*"
futures = "0.3"
libc = "0.2"
tokio = { version = "1", features = ["macros", "rt", "process", "time", "io-util"] }
uuid = "1"
