[package]
name = "stblib"
version = "0.1.0"
edition = "2021"
publish = false

[dependencies]
chrono = "=0.4.45"
dbus = "=0.9.12"
dirs = "=7.0.0"
eyre = "=0.6.14"
lettre = "=0.11.23"
num-traits = "=0.2.19"
os_info = "=3.15.0"
regex = "=1.13.1"
reqwest = { version = "=0.12.28", features = ["blocking"] }
rmp-serde = "=1.3.1"
serde = { version = "=1.0.229", features = ["derive"] }
serde_json = "=1.0.154"
serde_yaml = "=0.9.34"
shellwords = "=1.1.0"
socket2 = "=0.5.10"
thiserror = "=1.0.69"
tokio = { version = "=1.54.1", features = ["full"] }
winrt-notification = "=0.5.1"
