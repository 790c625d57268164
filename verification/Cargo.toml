[package]
name = "credstore"
version = "0.1.0"
edition = "2021"
publish = false

[dependencies]
rusqlite = { version = "*", features = ["bundled"] }
rand = "0.8"
pwhash = "1"
