[package]
name = "personal_finance"
version = "0.1.0"
edition = "2021"
publish = false

[dependencies]
chrono = { version = "=0.4.45", features = ["serde"] }
rocket = { version = "=0.5.2", features = ["json"] }
rocket_cors = "=0.6.0"
rustc_apfloat = "=0.2.3"
serde = { version = "=1.0.229", features = ["derive"] }
serde_json = "=1.0.154"
