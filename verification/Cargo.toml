[package]
name = "process_dashboard"
version = "0.1.0"
edition = "2021"
publish = false

[dependencies]
ratatui = "0.29"
crossterm = "0.28"
tokio = { version = "1", features = ["rt-multi-thread", "macros", "process", "io-util", "sync", "time"] }
futures = "0.3"
nix = { version = "0.29", features = ["signal", "process"] }
libc = "0.2"
serde = { version = "1", features = ["derive"] }
serde_yaml = "0.9"
