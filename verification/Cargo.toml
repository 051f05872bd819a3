[package]
name = "beer_tally"
version = "0.1.0"
edition = "2021"
publish = false

[dependencies]
rand = "=0.8.8"
teloxide = { version = "=0.5.3", features = ["auto-send", "macros"] }
tokio = { version = "=1.54.1", features = ["rt-multi-thread", "macros"] }
tokio-util = { version = "0.6", features = ["codec"] }
lazy_static = "=1.5.1"
log = "=0.4.34"
chrono = "=0.4.45"
