[package]
name = "pipe_transport"
version = "0.1.0"
edition = "2021"
publish = false

[dependencies]
tokio = { version = "1", features = ["net"] }
winapi = { version = "0.3", features = ["fileapi", "winbase", "winnt", "handleapi"] }
