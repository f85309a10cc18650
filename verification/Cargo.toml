[package]
name = "trace"
version = "0.1.0"
edition = "2021"
publish = false

[dependencies]
chrono = "0.4"
crossterm = "0.25"
csv = "1"
rand = "0.8"
serde = { version = "1", features = ["derive"] }
tui = "0.19"
