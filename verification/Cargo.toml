[package]
name = "osm_api"
version = "0.1.0"
edition = "2021"
publish = false

[dependencies]
reqwest = { version = "*", default-features = false }
quick-xml = { version = "*", features = ["serialize"] }
serde_json = "*"
serde = "*"
chrono = "*"
log = "*"
