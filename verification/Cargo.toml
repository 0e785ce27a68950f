[package]
name = "file_guard"
version = "0.1.0"
edition = "2021"
publish = false

[dependencies]
libc = "=0.2.190"
winapi = { version = "0.3", features = ["fileapi", "minwinbase", "minwindef", "winerror"] }
