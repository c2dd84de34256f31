[package]
name = "command_queue"
version = "0.1.0"
edition = "2021"
publish = false

[dependencies]
egui = "0.27"
serde = { version = "1", features = ["derive"] }
