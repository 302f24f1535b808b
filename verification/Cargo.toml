[package]
name = "headset_controller"
version = "0.1.0"
edition = "2021"
publish = false

[dependencies]
async-executor = "1"
async-hid = "*"
async-io = "1"
color-eyre = "0.6"
crossbeam-utils = "0.8"
directories-next = "2"
either = "1"
egui = "0.22"
flume = "0.11"
futures-lite = "1"
ron = "0.8"
serde = { version = "1", features = ["derive"] }
tokio = { version = "1", features = ["sync", "time", "rt", "macros"] }
tracing = "0.1"
tracing-subscriber = "0.3"
