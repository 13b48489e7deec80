[package]
name = "thr_bench"
version = "0.1.0"
edition = "2021"
publish = false

[dependencies]
zenoh = { version = "*", default-features = false }
clap = { version = "*", default-features = false, features = ["std", "help", "derive"] }
env_logger = { version = "*", default-features = false }
