[package]
name = "ethcore_sync"
version = "0.1.0"
edition = "2021"
publish = false

[dependencies]
ethcore-bytes = "=0.1.1"
ethcore-io = { version = "=1.12.0", features = ["mio"] }
ethereum-types = "=0.4.2"
log = "=0.4.35"
parking_lot = "=0.6.4"
rlp = "=0.2.4"
trace-time = "0.1"
