[package]
name = "aerosocket"
version = "0.1.0"
edition = "2021"
publish = false

[dependencies]
base64 = "0.22"
bytes = "1"
flate2 = "1"
rand = "0.8"
rustls = "0.21"
rustls-pemfile = "1"
sha1 = "0.10"
tokio = { version = "1", features = ["io-util", "macros", "net", "rt-multi-thread", "signal", "sync", "time"] }
tokio-rustls = "0.24"
webpki-roots = "0.25"
