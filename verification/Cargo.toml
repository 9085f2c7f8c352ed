[package]
name = "gdble"
version = "0.6.0"
edition = "2021"
publish = false

[dependencies]
uuid = "1"
btleplug = "0.12.0"
tokio = { version = "1", features = ["rt-multi-thread", "sync", "time", "macros"] }
tokio-util = "0.7"
futures = "0.3"
async-trait = "0.1"
godot = "0.4"
jni = "0.21"
