[package]
name = "tedge_actors"
version = "0.1.0"
edition = "2021"
publish = false

[dependencies]
serde = { version = "1", features = ["derive"] }
serde_json = "1"
nanoid = "0.4"
tokio = { version = "1", features = ["macros", "rt", "sync", "time", "process"] }
futures = "0.3"
which = "4"
time = { version = "0.3", features = ["formatting"] }

[dev-dependencies]
regex = "1"
