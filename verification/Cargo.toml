[package]
name = "jolt"
version = "0.1.0"
edition = "2021"
publish = false

[dependencies]
clap = { version = "4", features = ["derive"] }
dialoguer = "*"
dirs = "*"
flate2 = "1"
hex = "0.4"
notify = "*"
quick-xml = "*"
reqwest = { version = "*", default-features = false, features = ["json", "rustls-tls"] }
serde = { version = "1", features = ["derive"] }
serde_json = "1"
sha2 = "*"
tar = "*"
tokio = { version = "1", features = ["macros", "rt-multi-thread"] }
toml = "*"
toml_edit = "*"
walkdir = "2"
zip = { version = "*", default-features = false, features = ["deflate"] }
