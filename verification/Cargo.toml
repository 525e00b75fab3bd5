[package]
name = "torc_controller"
version = "0.1.0"
edition = "2021"
publish = false

[dependencies]
chrono = "0.4"
uuid = { version = "1", features = ["v4"] }
yaml-rust = "0.4"
hyper = "0.10"
iron = "0.6"
router = "0.6"
rustc-serialize = "0.3"
