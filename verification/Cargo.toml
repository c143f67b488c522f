[package]
name = "petstore"
version = "0.1.0"
edition = "2021"
publish = false

[dependencies]
http = "=1.5.0"
axum = "=0.7.9"
axum-extra = { version = "=0.9.6", features = ["cookie"] }
tokio = { version = "=1.54.1", features = ["full"] }
serde = { version = "=1.0.229", features = ["derive"] }
serde_json = "=1.0.154"
diesel = { version = "=2.2.12", default-features = false, features = ["postgres_backend"] }
diesel-async = { version = "=0.6.1", features = ["postgres", "bb8"] }
bb8 = "0.9"
dotenvy = "=0.15.7"
