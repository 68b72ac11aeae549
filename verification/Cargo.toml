[package]
name = "island"
version = "0.1.0"
edition = "2021"
publish = false

[dependencies]
nix = { version = "*", features = ["mount", "sched", "user", "fs"] }
clap = { version = "*", features = ["derive"] }
