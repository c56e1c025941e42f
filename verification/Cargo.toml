[package]
name = "warp_app"
version = "0.1.0"
edition = "2021"
publish = false

[dependencies]
regex = "1"
uuid = { version = "1", features = ["v4"] }
indexmap = "2"
smol_str = "0.2"
url = "2"
byte-unit = "5"
serde = { version = "1", features = ["derive"] }
dunce = "1"
sysinfo = "0.33"
