[package]
name = "touch_gestures"
version = "0.1.0"
edition = "2021"
publish = false

[dependencies]
notan_core = "*"
