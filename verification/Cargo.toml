[package]
name = "typewriter"
version = "0.1.0"
edition = "2021"
publish = false

[dependencies]
crossterm = "*"
csv = "*"
image = { version = "*", default-features = false, features = ["png"] }
rand = "*"
ratatui = { version = "*", default-features = false, features = ["crossterm"] }
ratatui-image = { version = "*", default-features = false }
rodio = { version = "*", default-features = false, features = ["flac"] }
