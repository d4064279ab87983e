[package]
name = "schema_discovery"
version = "0.1.0"
edition = "2021"
publish = false

[dependencies]
sea-query = "*"
serde = { version = "1", features = ["derive"] }
sqlx = { version = "*", default-features = false, features = ["mysql", "postgres", "sqlite"] }
