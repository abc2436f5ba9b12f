[package]
name = "burnin"
version = "0.1.0"
edition = "2021"
publish = false

[dependencies]
affinity = "*"
num_cpus = "*"
clap = { version = "*", features = ["derive"] }
eyre = "*"
color-eyre = "*"
tracing = "*"
tracing-subscriber = { version = "*", features = ["time", "local-time"] }
time = { version = "*", features = ["macros", "formatting", "local-offset"] }
libc = "*"
