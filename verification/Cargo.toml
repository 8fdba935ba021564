[package]
name = "render_assets"
version = "0.1.0"
edition = "2021"
publish = false

[dependencies]
image = { version = "=0.23.14", default-features = false, features = ["png", "jpeg", "hdr"] }
ron = "*"
serde = { version = "1", features = ["derive"] }
walkdir = "2"
log = "0.4"
wgpu = "*"
