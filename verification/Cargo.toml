[package]
name = "bhbadge2024"
version = "0.1.0"
edition = "2021"
publish = false

[dependencies]
embassy-sync = "*"
embassy-futures = "*"
critical-section = { version = "*", features = ["std"] }
static_cell = "*"
serde = { version = "*", features = ["derive"] }
serde-json-core = "*"
picoserve = "*"
