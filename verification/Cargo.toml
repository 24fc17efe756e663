[package]
name = "framepipe"
version = "0.1.0"
edition = "2021"
publish = false

[dependencies]
anyhow = "*"
argh = "*"
image = { version = "*", default-features = false, features = ["jpeg"] }
tracing = "*"
tracing-subscriber = { version = "*", features = ["env-filter"] }
v4l = "*"
