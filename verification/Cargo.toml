[package]
name = "process_events_streaming"
version = "0.1.0"
edition = "2021"
publish = false

[dependencies]
duct = "*"
