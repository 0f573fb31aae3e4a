[package]
name = "minimap_renderer"
version = "0.1.0"
edition = "2021"
publish = false

[dependencies]
convert_case = "=0.12.0"
parse_int = "=0.9.0"
wowsunpack = { version = "=0.40.0", default-features = false, features = ["parsing"] }
pickled = "=2.0.0-alpha9"
serde = { version = "=1.0.229", features = ["derive"] }
serde_json = "=1.0.154"
toml = "=1.1.8"
anyhow = "=1.0.104"
clap = "=2.34.0"
mp4 = "=0.14.0"
chrono = "=0.4.45"
