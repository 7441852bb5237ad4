[package]
name = "aurotype"
version = "0.2.0"
edition = "2021"
publish = false

[dependencies]
base64 = "*"
serde = { version = "*", features = ["derive"] }
serde_json = "*"
chrono = "*"
log = "*"
simplelog = "*"
tokio = { version = "*", features = ["rt-multi-thread", "macros", "time", "sync"] }
reqwest = { version = "*", default-features = false, features = ["json"] }
arboard = { version = "*", default-features = false }
enigo = "*"
