[package]
name = "gateflow"
version = "0.1.0"
edition = "2021"
publish = false

[dependencies]
nix = { version = "*", features = ["sched", "process", "fs", "user", "signal"] }
nlink = "0.15"
tokio = { version = "1", features = ["rt", "rt-multi-thread"] }
syn = { version = "2", features = ["full"] }
quote = "1"
proc-macro2 = "1"
