[package]
name = "tunnel_core"
version = "0.1.0"
edition = "2021"
publish = false

[dependencies]
smoltcp = { version = "0.8", default-features = false, features = ["std", "medium-ip", "proto-ipv4", "proto-ipv6", "socket-tcp"] }
lru_time_cache = "0.11"
tokio = { version = "1", features = ["sync", "rt", "time", "net", "macros", "io-util"] }
parking_lot = "0.12"
bytes = "1"
log = "0.4"
