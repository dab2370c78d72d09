[package]
name = "sunzip"
version = "0.1.0"
edition = "2021"
publish = false

[dependencies]
crc = "3"
hex = "0.4"
clap = { version = "4", features = ["derive", "env"] }
iocore = "*"
serde = "1"
sevenz-rust = { version = "*", features = ["compress", "aes256"] }
