[package]
name = "pyne"
version = "0.1.0"
edition = "2021"
publish = false

[dependencies]
ropey = { version = "1", default-features = false }
uuid = { version = "1", features = ["v4"] }
clipboard = "0.5"
ratatui = "*"
once_cell = "1"
