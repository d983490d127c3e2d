[package]
name = "fur_shell"
version = "0.1.0"
edition = "2021"
publish = false

[dependencies]
anyhow = "=1.0.104"
bytemuck = { version = "=1.25.2", features = ["derive"] }
glam = "=0.24.2"
gltf = { version = "=1.4.1", default-features = false, features = ["import"] }
instant = "=0.1.13"
pollster = "=0.3.0"
serde = { version = "=1.0.229", features = ["derive"] }
serde_json = "=1.0.151"
