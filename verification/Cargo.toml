[package]
name = "folco_renderer"
version = "0.1.0"
edition = "2021"
publish = false

[dependencies]
palette = "*"
resvg = "*"
twemoji-assets = { version = "*", features = ["svg"] }
image = "*"
serde = { version = "*", features = ["derive"] }
serde_json = "*"
