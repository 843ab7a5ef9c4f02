[package]
name = "ppd_egui"
version = "0.1.0"
edition = "2021"
publish = false

[dependencies]
eframe = { version = "*", default-features = false, features = ["glow", "x11"] }
env_logger = "*"
futures-lite = "*"
ppd = "*"
thiserror = "*"
tokio = { version = "*", features = ["rt-multi-thread", "sync", "macros"] }
tokio-util = "*"
zbus = "*"
