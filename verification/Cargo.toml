[package]
name = "orbital"
version = "0.1.0"
edition = "2021"
publish = false

[dependencies]
cgmath = "=0.18.0"
dirs = "=7.0.0"
fontdue = "=0.9.5"
globals = "=1.0.5"
log = "=0.4.35"
serde = { version = "=1.0.229", features = ["derive"] }
spin = "=0.9.9"
wgpu = { version = "=30.0.1", default-features = false }

[dev-dependencies]
naga = { version = "=30.0.1", features = ["wgsl-in"] }
