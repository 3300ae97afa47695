[package]
name = "sysbadge"
version = "0.1.0"
edition = "2021"
publish = false

[dependencies]
crc16 = "*"
sha2 = "*"
serde = { version = "1", features = ["derive"] }
serde_json = "1"
embedded-graphics = "*"
profont = "*"
