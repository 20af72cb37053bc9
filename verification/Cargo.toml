[package]
name = "bucket"
version = "0.1.0"
edition = "2021"
publish = false

[dependencies]
rusqlite = { version = "*", features = ["bundled"] }
serenity = "*"
tokio = { version = "*", features = ["rt-multi-thread", "macros"] }
