[package]
name = "playback"
version = "0.1.0"
edition = "2021"
publish = false

[dependencies]
url = "2"
serde_json = "1"
serde = { version = "1", features = ["derive"] }
serenity = "0.11"
songbird = { version = "0.3", features = ["builtin-queue"] }
mongodb = "2"
tokio = { version = "1", features = ["macros", "rt-multi-thread", "process", "signal"] }
tracing = "0.1"
tracing-subscriber = { version = "0.3", features = ["json"] }
