[package]
name = "txweb"
version = "0.1.0"
edition = "2021"
publish = false

[dependencies]
serde = { version = "*", features = ["derive"] }
serde_json = "*"
sqlx = { version = "*", default-features = false }
validator = "*"
actix-web = { version = "*", default-features = false }
scoped-futures = "*"
