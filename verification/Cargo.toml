[package]
name = "ravenserver"
version = "0.1.0"
edition = "2021"
publish = false

[dependencies]
bcrypt = "=0.15.1"
bson = "=0.12.3"
chrono = "=0.4.45"
rust-crypto = "=0.2.36"
failure = "=0.1.8"
jsonwebtoken = "=9.3.1"
lazy_static = "=1.5.1"
mongodb = "=0.3.10"
reqwest = { version = "=0.12.28", default-features = false }
rocket = "=0.4.11"
rocket_contrib = { version = "=0.4.11", default-features = false, features = ["json", "tera_templates", "serve"] }
rocket_failure = "=0.2.0"
serde = { version = "=1.0.229", features = ["derive"] }
serde_derive = "=1.0.229"
serde_json = "=1.0.154"
