[package]
name = "unfocol"
version = "0.1.0"
edition = "2021"
publish = false

[dependencies]
csscolorparser = "*"
serde = { version = "1", features = ["derive"] }
toml = "*"
notify = "*"
log = "*"
env_logger = "*"
eframe = { version = "*", default-features = false, features = ["glow", "default_fonts", "x11"] }

[dev-dependencies]
toml = "*"
