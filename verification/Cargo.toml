[package]
name = "rs_8080"
version = "0.1.0"
edition = "2021"
publish = false

[dependencies]
rand = "0.8"
clap = { version = "4", features = ["derive"] }
env_logger = "*"
log = "0.4"
rustyline = "*"
