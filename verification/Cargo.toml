[package]
name = "pointercrate"
version = "0.1.0"
edition = "2021"
publish = false

[dependencies]
derive_more = "0.99"
futures = "0.3"
serde = { version = "1", features = ["derive"] }
sqlx = { version = "0.7", default-features = false, features = ["postgres", "runtime-tokio"] }
