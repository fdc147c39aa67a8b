[package]
name = "pcap"
version = "0.1.0"
edition = "2021"
publish = false

[dependencies]
futures = "*"
libc = "*"
mio = "*"
tokio = { version = "*", default-features = false, features = ["net"] }
