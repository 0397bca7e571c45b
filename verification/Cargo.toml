[package]
name = "rosemary"
version = "0.1.0"
edition = "2021"
publish = false

[dependencies]
image = { version = "*", default-features = false, features = ["jpeg", "png"] }
bcrypt = "*"
tokio = { version = "*", features = ["rt-multi-thread", "sync", "time", "fs", "macros"] }
uuid = { version = "*", features = ["v4"] }
