[package]
name = "miniblog"
version = "0.1.0"
edition = "2021"
publish = false

[dependencies]
dioxus = { version = "0.6", features = ["fullstack"] }
rusqlite = "*"
serde = { version = "1", features = ["derive"] }
