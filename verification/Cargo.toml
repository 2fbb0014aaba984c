[package]
name = "led_control"
version = "0.1.0"
edition = "2021"
publish = false

[dependencies]
anyhow = "*"
colors-transform = "*"
embedded-svc = "*"
esp-idf-svc = "*"
log = "*"
maud = "*"
rgb = "*"
serde = { version = "*", features = ["derive"] }
serde_urlencoded = "*"
toml-cfg = "*"
