[package]
name = "knowledge_index"
version = "0.1.0"
edition = "2021"
publish = false

[dependencies]
sha2 = "=0.10.9"
pdf-extract = "=0.12.1"
zip = { version = "=9.2.2", default-features = false, features = ["deflate"] }
quick-xml = "=0.38.4"
rusqlite = { version = "=0.41.1", features = ["bundled"] }
serde = { version = "=1.0.229", features = ["derive"] }
