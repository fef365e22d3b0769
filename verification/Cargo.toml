[package]
name = "capyshell"
version = "0.1.0"
edition = "2021"
publish = false

[dependencies]
zbus = { version = "=6.1.0", default-features = false, features = ["tokio", "proxy"] }
serde = { version = "=1.0.229", features = ["derive"] }
serde_json = "=1.0.154"
sha2 = "=0.11.1"
hex = "=0.4.3"
tokio = { version = "=1.54.1", features = ["rt-multi-thread", "macros", "sync", "time"] }
futures-util = "=0.3.34"
log = "=0.4.34"
thiserror = "=2.0.21"
crossbeam-channel = "=0.5.17"
walkdir = "=2.5.0"
chrono = "=0.4.45"
sysinfo = "=0.32.1"
ureq = "=2.12.1"
image = { version = "=0.25.10", default-features = false, features = ["png", "jpeg"] }
hyprland = "=0.3.13"
battery = "=0.7.8"
nmrs = "=3.5.7"
bluer = { version = "=0.17.4", features = ["bluetoothd"] }
libpulse-binding = "=2.30.1"
