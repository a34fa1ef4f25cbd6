[package]
name = "vss_writers"
version = "0.1.0"
edition = "2021"
publish = false

[dependencies]
winapi = { version = "0.3", features = ["combaseapi", "guiddef", "objbase", "vsbackup", "vss", "winbase", "winerror"] }
