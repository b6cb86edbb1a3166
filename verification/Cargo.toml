[package]
name = "loq_rgb"
version = "0.1.0"
edition = "2021"
publish = false

[dependencies]
clap = { version = "=4.6.7", features = ["derive"] }
eframe = { version = "*", default-features = false, features = ["default_fonts", "glow", "x11"] }
hidapi = { version = "=2.6.7", default-features = false, features = ["linux-native-basic-udev"] }
serde = { version = "=1.0.229", features = ["derive"] }
serde_json = "=1.0.154"
thiserror = "=2.0.21"
