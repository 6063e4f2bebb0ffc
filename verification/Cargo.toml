[package]
name = "makita"
version = "0.1.0"
edition = "2021"
publish = false

[dependencies]
crossbeam-channel = "0.5"
evdev = { version = "0.12", features = ["tokio", "serde"] }
fork = "*"
lazy_static = "1"
magnus = { version = "*", features = ["embed"] }
nix = { version = "*", features = ["fs"] }
serde = { version = "1", features = ["derive"] }
serde_json = "1"
swayipc-async = "*"
tokio = { version = "1", features = ["macros", "rt-multi-thread", "sync", "time", "signal"] }
tokio-stream = "0.1"
tokio-udev = "*"
toml = "*"
x11rb = "*"
