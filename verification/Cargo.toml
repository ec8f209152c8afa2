[package]
name = "watchdog"
version = "0.1.0"
edition = "2021"
publish = false

[dependencies]
toml = "0.8"
sysinfo = "0.28"
libc = "0.2"
winapi = { version = "0.3", features = ["winuser"] }
