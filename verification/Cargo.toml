[package]
name = "reef"
version = "0.1.0"
edition = "2021"
publish = false

[dependencies]
infer = "*"
image = { version = "0.25", default-features = false, features = ["png", "jpeg", "gif", "webp", "bmp", "tiff", "ico"] }
serde = { version = "1", features = ["derive"] }
serde_json = "1"
crossterm = "*"
ratatui = { version = "*", default-features = false, features = ["crossterm"] }
git2 = { version = "*", default-features = false }
