[package]
name = "lcmods"
version = "0.1.0"
edition = "2021"
publish = false

[dependencies]
zip = "*"
crossterm = "*"
ratatui = "*"
windows = { version = "*", features = ["Win32_Foundation", "Win32_Storage_FileSystem"] }
