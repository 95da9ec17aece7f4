[package]
name = "note_search"
version = "0.1.0"
edition = "2021"
publish = false

[dependencies]
tantivy = "*"
serde = { version = "*", features = ["derive"] }
serde_json = "*"
clap = { version = "*", features = ["derive"] }
rocket = { version = "*", features = ["json"] }

[dev-dependencies]
tempfile = "*"
