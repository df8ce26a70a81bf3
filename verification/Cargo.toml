[package]
name = "matter"
version = "0.1.0"
edition = "2021"
publish = false

[dependencies]
astro-dnssd = "0.3"
domain = { version = "0.7.2", default-features = false }
embassy-futures = "0.1"
embassy-sync = "0.2"
embassy-time = { version = "0.1", features = ["std"] }
heapless = "0.7"
log = "0.4"
