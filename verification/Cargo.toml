[package]
name = "zenoh_nostd"
version = "0.1.0"
edition = "2021"
publish = false

[dependencies]
dyn-utils = "=0.1.1"
embassy-futures = "=0.1.2"
embassy-sync = "=0.7.2"
embassy-time = { version = "=0.5.1", features = ["tick-hz-1_000_000"] }
embedded-io-async = "=0.6.1"
hash32 = "=0.3.1"
heapless = "=0.8.0"
sha3 = "=0.10.9"
static_cell = "=2.1.1"
url = "=2.5.8"
yawc = "=0.5.0"
