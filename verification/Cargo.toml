[package]
name = "integrator"
version = "0.1.0"
edition = "2021"
publish = false

[dependencies]
fraction = "=0.17.0"
clap = { version = "=3.2.25", default-features = false, features = ["std"] }
csv = "=1.4.0"
