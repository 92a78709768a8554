[package]
name = "miro_pdf"
version = "0.1.0"
edition = "2021"
publish = false

[dependencies]
keybinds = "*"
regex = "1"
colored = "*"
twox-hash = "*"
serde = { version = "1", features = ["derive"] }
serde_json = "1"
home = "*"
anyhow = "1"
