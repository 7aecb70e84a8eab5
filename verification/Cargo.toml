[package]
name = "rabitty"
version = "0.1.0"
edition = "2021"
publish = false

[dependencies]
alacritty_terminal = "*"
portable-pty = "*"
ab_glyph = "*"
dirs = "*"
toml = "*"
serde = { version = "*", features = ["derive"] }
