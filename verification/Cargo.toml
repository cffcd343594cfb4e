[package]
name = "pty_pump"
version = "0.1.0"
edition = "2021"
publish = false

[dependencies]
anyhow = "1"
mio = { version = "0.8", features = ["os-poll", "os-ext"] }
nix = { version = "0.27", features = ["fs", "process", "signal", "term"] }
termion = "3"
