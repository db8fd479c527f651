[package]
name = "note_sync"
version = "0.1.0"
edition = "2021"
publish = false

[dependencies]
miden-protocol = { version = "0.15", default-features = false, features = ["testing"] }

[dev-dependencies]
miden-standards = { version = "0.15", default-features = false }
