[package]
name = "sgo_email"
version = "0.1.0"
edition = "2021"
publish = false

[dependencies]
chrono = "0.4"
configparser = "3"
lazy_static = "1"
lettre = { version = "0.11", default-features = false, features = ["builder", "hostname", "smtp-transport", "tokio1", "tokio1-rustls-tls"] }
oracle = { version = "0.6", features = ["chrono"] }
serde = { version = "1", features = ["derive"] }
sqlx = { version = "0.7", default-features = false, features = ["mysql", "runtime-tokio", "chrono", "json", "macros"] }
tera = { version = "1", default-features = false }
tokio = { version = "1", features = ["full"] }
tokio-stream = "0.1"
