[package]
name = "octopus_webp"
version = "0.1.0"
edition = "2021"
publish = false

[dependencies]
rustler = "=0.33.0"
webp = { version = "=0.3.1", default-features = false }
webp-animation = "=0.10.0"
