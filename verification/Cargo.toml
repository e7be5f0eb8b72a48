[package]
name = "goodies"
version = "0.1.0"
edition = "2021"
publish = false

[dependencies]
anyhow = "1"
actix-web = "4"
sqlx = { version = "0.8", features = ["sqlite", "runtime-tokio"] }
