[package]
name = "piper_vits"
version = "0.1.0"
edition = "2021"
publish = false

[dependencies]
libtashkeel_base = { version = "=1.5.0", default-features = false }
ndarray = "=0.17.2"
ndarray-stats = "=0.7.0"
ort = { version = "=2.0.0-rc.15", default-features = false, features = ["std", "ndarray", "load-dynamic"] }
serde = { version = "=1.0.229", features = ["derive"] }
serde_json = "=1.0.154"
tch = { version = "=0.26.0", features = ["doc-only"] }
