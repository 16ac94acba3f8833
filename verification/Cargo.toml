[package]
name = "super_paste"
version = "0.1.0"
edition = "2021"
publish = false

[dependencies]
sha2 = "0.10"
hex = "0.4"
uuid = { version = "1", features = ["v4"] }
image = { version = "0.25", default-features = false, features = ["png"] }
arboard = "3"
serde = { version = "1", features = ["derive"] }
tokio = { version = "1", features = ["sync"] }
