[package]
name = "editorconfig_checker"
version = "0.1.0"
edition = "2021"
publish = false

[dependencies]
flate2 = "1"
reqwest = { version = "0.11", default-features = false, features = ["blocking", "rustls-tls"] }
sys-info = "0.9"
tar = "0.4"
xdg = "2"

[dev-dependencies]
tempfile = "3"
