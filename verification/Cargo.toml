[package]
name = "sss_code"
version = "0.1.0"
edition = "2021"
publish = false

[dependencies]
clap = { version = "4", features = ["derive"] }
clap-stdin = "*"
directories = "*"
serde = { version = "1", features = ["derive"] }
toml = "*"
