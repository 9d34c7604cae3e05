[package]
name = "n3ondiff"
version = "0.1.0"
edition = "2021"
publish = false

[dependencies]
base64 = "0.22"
clap = { version = "4", features = ["derive"] }
libafl = "0.13"
libafl_bolts = "0.13"
rand = "0.8"
serde = { version = "1", features = ["derive"] }
serde_json = "1"
