[package]
name = "nsbox"
version = "0.1.0"
edition = "2021"
publish = false

[dependencies]
nix = { version = "0.26", features = ["event", "fs", "mount", "process", "sched", "signal", "user", "uio"] }
libc = "0.2"
caps = "0.5"
