[package]
name = "render_scaffold"
version = "0.1.0"
edition = "2021"
publish = false

[dependencies]
bytemuck = { version = "=1.25.2", features = ["derive"] }
tokio = { version = "=1.54.1", features = ["rt-multi-thread"] }
tracing-subscriber = { version = "=0.3.23", features = ["env-filter"] }
wgpu = "=27.0.1"
winit = "=0.31.0-beta.3"
