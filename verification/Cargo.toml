[package]
name = "arsync"
version = "0.1.0"
edition = "2021"
publish = false

[dependencies]
anyhow = "=1.0.104"
chrono = "0.4"
clap = { version = "=4.6.7", features = ["derive"] }
compio = { version = "=0.19.2", features = ["macros", "fs", "fs-dir"] }
dashmap = "=6.2.1"
futures = "=0.3.34"
libc = "=0.2.191"
num_cpus = "=1.17.0"
regex = "1"
tracing = "=0.1.44"
tracing-subscriber = "=0.3.23"
