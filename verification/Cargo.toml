[package]
name = "snek"
version = "0.1.0"
edition = "2021"
publish = false

[dependencies]
clap = { version = "=4.6.7", features = ["derive"] }
crossbeam-channel = "=0.5.17"
rand = "=0.10.3"
termion = "=4.0.6"
tui = { version = "=0.19.0", default-features = false, features = ["termion"] }
