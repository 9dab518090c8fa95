[package]
name = "rustcraft"
version = "0.1.0"
edition = "2021"
publish = false

[dependencies]
sysinfo = "0.21"
serde_json = "1"
image = { version = "0.24", default-features = false, features = ["png"] }
nalgebra = "0.32"
