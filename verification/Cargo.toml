[package]
name = "session_registry"
version = "0.1.0"
edition = "2021"
publish = false

[dependencies]
rand = "0.9"
actix-web = "4"
serde = { version = "1", features = ["derive"] }
diesel = { version = "2", default-features = false }
