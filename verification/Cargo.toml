[package]
name = "meter"
version = "0.1.0"
edition = "2021"
publish = false

[dependencies]
chrono = "0.4"
clap = { version = "4", features = ["derive"] }
crossterm = "0.28"
genpdf = "0.2"
global-hotkey = "*"
libc = "0.2"
notify-rust = "4"
objc2 = "*"
objc2-app-kit = "*"
objc2-core-foundation = "*"
ratatui = "0.29"
rusqlite = { version = "*", features = ["bundled"] }
tao = "*"
tray-icon = "*"
