[package]
name = "voxel_editor"
version = "0.1.0"
edition = "2021"
publish = false

[dependencies]
rustc-hash = "2"
uuid = { version = "1", features = ["v4"] }
vek = "0.17"
rand = "0.9"
rayon = "1"
lazy_static = "1"
serde = { version = "1", features = ["derive"] }
strum = "0.26"
strum_macros = "0.26"
png = "0.17"
fontdue = "0.9"
rhai = "1"
rust-embed = "8"
theframework = "*"
