[package]
name = "rugix_isolator"
version = "0.1.0"
edition = "2021"
publish = false

[dependencies]
clap = { version = "*", features = ["derive"] }
libc = "*"
nix = { version = "*", features = ["fs", "mount", "process", "sched", "signal", "user"] }
