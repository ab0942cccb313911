[package]
name = "ratelimit_bench"
version = "0.1.0"
edition = "2021"
publish = false

[dependencies]
hdrhistogram = { version = "7", default-features = false }
clap = { version = "4", features = ["derive"] }
parse_duration = "2"
tokio = { version = "1", features = ["macros", "rt-multi-thread", "time"] }
tonic = "0.12"
prost = "0.13"
