[package]
name = "timer_cli"
version = "0.1.0"
edition = "2021"
publish = false

[dependencies]
humantime = "*"
chrono = "*"
clap = { version = "*", features = ["derive"] }
daemonize = "*"
libc = "*"
native-dialog = "*"
rodio = "*"
rusqlite = { version = "*", features = ["bundled"] }
