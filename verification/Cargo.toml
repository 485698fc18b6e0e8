[package]
name = "fft"
version = "0.1.0"
edition = "2021"
publish = false

[dependencies]
actix-web = { version = "*", default-features = false, features = ["macros"] }
actix-cors = "*"
serde = { version = "*", features = ["derive"] }
