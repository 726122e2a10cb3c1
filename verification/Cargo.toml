[package]
name = "coordinates"
version = "0.1.0"
edition = "2021"
publish = false

[dependencies]
actix-web = { version = "=4.15.0", default-features = false, features = ["macros"] }
actix-files = "0.6"
deadpool = "=0.13.1"
deadpool-postgres = { version = "=0.14.2", features = ["serde"] }
tokio-postgres = "=0.7.18"
tokio-pg-mapper = "=0.2.0"
tokio-pg-mapper-derive = "=0.2.0"
serde = { version = "=1.0.229", features = ["derive"] }
dotenv = "=0.15.0"
config = { version = "=0.15.27", default-features = false }
