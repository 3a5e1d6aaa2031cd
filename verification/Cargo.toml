[package]
name = "d2rlauncher"
version = "0.1.0"
edition = "2021"
publish = false

[dependencies]
fltk = "1"
serde = { version = "1", features = ["derive"] }
serde_json = "1"
surge-ping = "0.8"
tokio = { version = "1", features = ["rt-multi-thread", "net", "time"] }
