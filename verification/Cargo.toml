[package]
name = "ray_tracer"
version = "0.1.0"
edition = "2021"
publish = false

[dependencies]
rand = "*"
anyhow = "*"
clap = { version = "*", features = ["derive"] }
image = { version = "*", default-features = false, features = ["png"] }
indicatif = "*"
rayon = "*"
serde = { version = "*", features = ["derive"] }
serde_yaml = "*"
