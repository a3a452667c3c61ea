[package]
name = "shock2vr"
version = "0.1.0"
edition = "2021"
publish = false

[dependencies]
cgmath = "0.18"
serde = { version = "1", features = ["derive"] }
