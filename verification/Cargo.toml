[package]
name = "fetcher"
version = "0.1.0"
edition = "2021"
publish = false

[dependencies]
reqwest = { version = "0.11", default-features = false, features = ["json", "gzip"] }
serde = { version = "1", features = ["derive"] }

[dev-dependencies]
serde_json = "1"
