[package]
name = "event_loop"
version = "0.1.0"
edition = "2021"
publish = false

[dependencies]
raw-window-handle = "0.5"
web-time = "0.2"
