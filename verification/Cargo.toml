[package]
name = "rustvania"
version = "0.1.0"
edition = "2021"
publish = false

[dependencies]
macroquad = { version = "=0.4.16", default-features = false }
serde = { version = "=1.0.229", features = ["derive"] }
postcard = { version = "=1.1.3", features = ["alloc"] }
laminar = "=0.5.0"
crossbeam-channel = "=0.5.17"
