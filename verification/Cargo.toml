[package]
name = "zedlib"
version = "0.1.0"
edition = "2021"
publish = false

[dependencies]
smallvec = "=1.16.4"
unindent = "=0.2.4"
serde = { version = "=1.0.229", features = ["derive"] }
serde_json = "=1.0.154"
serde_yml = "=0.0.13"
uuid = { version = "=1.29.0", features = ["v4"] }
anyhow = "=1.0.104"
rusqlite = { version = "*", features = ["bundled"] }
