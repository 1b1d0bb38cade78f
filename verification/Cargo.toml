[package]
name = "psh"
version = "0.1.0"
edition = "2021"
publish = false

[dependencies]
anyhow = "*"
directories = "*"
nix = { version = "*", features = ["signal"] }
owo-colors = "*"
rustyline = "*"
rustyline-derive = "*"
signal-hook-tokio = { version = "*", features = ["futures-v0_3"] }
tokio = { version = "*", features = ["macros", "rt-multi-thread", "net", "io-util", "signal", "sync", "time"] }
tokio-stream = "*"
