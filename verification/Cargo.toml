[package]
name = "photomap"
version = "0.1.0"
edition = "2021"
publish = false

[dependencies]
kamadak-exif = "=0.6.1"
chrono = { version = "=0.4.45", default-features = false, features = ["std"] }
libheif-rs = "=3.0.0"
anyhow = "=1.0.104"
ignore = "=0.4.33"
rayon = "=1.12.0"
bincode = "1"
serde = { version = "1", features = ["derive"] }
