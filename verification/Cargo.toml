[package]
name = "ferrous_focus"
version = "0.1.0"
edition = "2021"
publish = false

[dependencies]
image = { version = "*", default-features = false }
fxhash = "*"
x11rb = "*"
swayipc = "*"
tokio = { version = "*", features = ["rt", "rt-multi-thread", "sync", "time"] }
tracing = "*"
thiserror = "*"
