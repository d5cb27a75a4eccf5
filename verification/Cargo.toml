[package]
name = "picoprog"
version = "0.1.0"
edition = "2021"
publish = false

[dependencies]
defmt = "=1.2.0"
embassy-executor = "=0.10.0"
embassy-futures = "=0.1.2"
embassy-net = { version = "=0.9.1", features = ["tcp", "dhcpv4", "proto-ipv4", "medium-ethernet"] }
embassy-sync = "=0.8.0"
embassy-time = "=0.5.1"
embedded-hal = "=1.0.0"
embedded-hal-async = "=1.0.0"
embedded-io-async = "=0.7.0"
rand_core = "=0.10.1"
rflasher-core = { version = "=0.1.0", features = ["std", "is_sync"] }
rflasher-programmers = { version = "=0.1.0", default-features = false, features = ["std", "is_sync", "serprog"] }
static_cell = "=2.1.1"
