[package]
name = "rustdemic"
version = "0.1.0"
edition = "2021"
publish = false

[dependencies]
rand = "0.8"
serde = { version = "1", features = ["derive"] }
serde_yaml = "0.9"
bincode = "1.3"
message-io = "0.14"
miniquad = "0.3"
egui = "0.21"
egui-miniquad = "0.14"
