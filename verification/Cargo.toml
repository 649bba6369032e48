[package]
name = "sound_gateway"
version = "0.1.0"
edition = "2021"
publish = false

[dependencies]
rodio = "*"
serde = { version = "*", features = ["derive"] }
tokio = { version = "*", features = ["macros", "rt-multi-thread"] }
warp = "*"
