[package]
name = "edge_resize"
version = "0.1.0"
edition = "2021"
publish = false

[dependencies]
mouce = "=0.3.0"
tokio = { version = "=1.53.2", features = ["rt", "sync", "macros", "time"] }
