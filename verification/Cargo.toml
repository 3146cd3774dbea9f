[package]
name = "hushreader"
version = "0.1.0"
edition = "2021"
publish = false

[dependencies]
serde_json = "1"
encoding_rs = "0.8"
serde = { version = "1", features = ["derive"] }
ureq = "2"
log = "0.4"
