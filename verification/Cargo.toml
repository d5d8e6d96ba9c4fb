[package]
name = "toy_container"
version = "0.1.0"
edition = "2021"
publish = false

[dependencies]
anyhow = "1"
cidr = "*"
clap = { version = "4", features = ["derive"] }
libc = "0.2"
nix = { version = "*", features = ["fs", "hostname", "mount", "process", "sched", "signal", "user"] }

[dev-dependencies]
regex = "1"
