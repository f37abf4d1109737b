[package]
name = "reth-bench-compare"
version = "0.1.0"
edition = "2021"
publish = false

[dependencies]
alloy-chains = "0.2"
chrono = "0.4"
clap = { version = "4.5", features = ["derive"] }
ctrlc = "3.5"
eyre = "0.6"
nix = { version = "0.31", features = ["process", "signal"] }
shellexpand = "3.1"
shlex = "1.3"
tokio = { version = "1.47", features = ["io-util", "macros", "process", "rt", "signal", "time"] }
tracing = "0.1"
url = "2.5"
