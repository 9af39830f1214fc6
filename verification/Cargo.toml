[package]
name = "osc_broadcaster"
version = "0.1.0"
edition = "2021"
publish = false

[dependencies]
rosc = "*"
clap = { version = "*", features = ["derive"] }
comfy-table = "*"
csv = "*"
serde = { version = "*", features = ["derive"] }
serde_json = "*"
serde_yaml = "*"
toml = "*"
