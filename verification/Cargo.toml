[package]
name = "dragwin"
version = "0.1.0"
edition = "2021"
publish = false

[dependencies]
image = { version = "=0.25.10", default-features = false, features = ["png"] }
iced = { version = "=0.14.0", default-features = false, features = ["canvas", "image", "advanced", "tiny-skia", "x11", "thread-pool"] }
