[package]
name = "flower_genetics"
version = "0.1.0"
edition = "2021"
publish = false

[dependencies]
rand = "*"
getch-rs = "*"
serde = { version = "*", features = ["derive"] }
serde_json = "*"
