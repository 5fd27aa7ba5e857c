[package]
name = "kiters"
version = "0.1.0"
edition = "2021"
publish = false

[dependencies]
base36 = "*"
serde = { version = "1", features = ["derive"] }
time = { version = "0.3", features = ["formatting", "macros"] }
uuid = { version = "1", features = ["v4"] }
