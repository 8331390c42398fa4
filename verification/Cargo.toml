[package]
name = "prusa_connect_uploader"
version = "0.1.0"
edition = "2021"
publish = false

[dependencies]
clap = { version = "=4.6.7", features = ["derive", "env"] }
duct = "=1.1.2"
yansi = "=1.0.1"
