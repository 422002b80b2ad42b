[package]
name = "apoptotic"
version = "0.1.0"
edition = "2021"
publish = false

[dependencies]
aes = "0.8"
sha1 = "0.10"
hex = "0.4"
uuid = { version = "1", features = ["v3"] }
rsa = "0.9"
rand = "0.8"
tokio = { version = "1", features = ["net", "io-util", "rt", "rt-multi-thread", "macros", "time", "sync"] }
