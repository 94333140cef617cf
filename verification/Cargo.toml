[package]
name = "encrypted_match"
version = "0.1.0"
edition = "2021"
publish = false

[dependencies]
anchor-lang = "0.31"
arcium-anchor = "=0.2.0"
arcium-client = { version = "=0.2.0", default-features = false }
arcis-imports = "=0.2.0"
serde = { version = "1", features = ["derive"] }
