[package]
name = "axiom_rs"
version = "0.1.0"
edition = "2021"
publish = false

[dependencies]
flate2 = "1"
serde_json = "1"
url = "2"
serde = { version = "1", features = ["derive"] }
ureq = "2"
chrono = "0.4"

[dev-dependencies]
