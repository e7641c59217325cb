[package]
name = "ref_interface"
version = "0.1.0"
edition = "2021"
publish = false

[dependencies]
byteorder = "1"
serde_json = "1"
serde = { version = "1", features = ["derive"] }
libc = "0.2"
reqwest = { version = "0.12", default-features = false, features = ["blocking"] }
