[package]
name = "lex_engine"
version = "0.1.0"
edition = "2021"
publish = false

[dependencies]
regex = "1"
uuid = "1"
serde = { version = "1", features = ["derive"] }
serde_json = "1"
sqlx = { version = "0.8", default-features = false, features = ["postgres", "runtime-tokio", "uuid"] }
axum = "0.8"
tokio = { version = "1", features = ["full"] }
dotenvy = "0.15"
async-trait = "0.1"
