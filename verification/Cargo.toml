[package]
name = "n3x"
version = "0.1.0"
edition = "2021"
publish = false

[dependencies]
nostr-sdk = "0.21"
serde = { version = "1", features = ["derive"] }
serde_json = { version = "1", features = ["preserve_order"] }
tokio = { version = "1", features = ["macros", "rt-multi-thread"] }
