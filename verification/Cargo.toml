[package]
name = "havendesktop"
version = "0.1.0"
edition = "2021"
publish = false

[dependencies]
yuv = { version = "=0.8.19", default-features = false }
base64 = "=0.22.1"
rand = "=0.8.8"
uuid = { version = "=1.29.0", features = ["serde"] }
keycast = "=0.1.6"
tokio = { version = "=1.54.1", features = ["rt-multi-thread", "sync", "macros", "time"] }
serde = { version = "=1.0.229", features = ["derive"] }
thiserror = "=1.0.69"
async-trait = "=0.1.92"
image = { version = "=0.25.10", default-features = false }
log = "=0.4.34"
parking_lot = { version = "=0.12.5", features = ["deadlock_detection"] }
egui = { version = "=0.33.3", default-features = false }
eframe = { version = "=0.33.3", default-features = false, features = ["wgpu", "persistence", "x11"] }
nokhwa = { version = "=0.10.11", default-features = false }
