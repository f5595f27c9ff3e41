[package]
name = "registry_tokens"
version = "0.1.0"
edition = "2021"
publish = false

[dependencies]
sha2 = "0.10"
rand = "0.8"
anyhow = "1"
chrono = "0.4"
diesel = { version = "2", features = ["postgres"] }
