[package]
name = "deport"
version = "0.1.0"
edition = "2021"
publish = false

[dependencies]
dashmap = "=6.2.1"
regex = "=1.13.1"
rand = "=0.10.3"
rama = { version = "=0.2.0", features = ["boring", "rustls", "http-full"] }
rkyv = "=0.8.18"
tokio = { version = "=1.54.1", features = ["full"] }
clap = { version = "=4.6.7", features = ["derive"] }
colored = "=3.1.1"
anyhow = "=1.0.104"
directories = "=6.0.0"
daemonizr = "=0.1.9"
nix = { version = "=0.31.3", features = ["signal", "user", "fs"] }
tracing = "=0.1.44"
