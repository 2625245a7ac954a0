[package]
name = "extraction_store"
version = "0.1.0"
edition = "2021"
publish = false

[dependencies]
nanoid = "0.4"
sea-orm = { version = "0.12", default-features = false, features = ["macros", "with-json"] }
serde = { version = "1", features = ["derive"] }
serde_json = "1"
thiserror = "1"
