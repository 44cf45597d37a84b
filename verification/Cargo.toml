[package]
name = "cargo_cleanall"
version = "2.0.0"
edition = "2021"
publish = false

[dependencies]
anyhow = "1"
clap = { version = "4", features = ["derive"] }
colored = "*"
indicatif = "*"
num_cpus = "1"
tokio = { version = "1", features = ["fs", "process", "rt-multi-thread", "macros", "sync"] }
