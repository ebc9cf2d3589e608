[package]
name = "ss_connect"
version = "0.1.0"
edition = "2021"
publish = false

[dependencies]
base64 = "=0.22.1"
http = "=1.5.0"
hyper = "=1.12.0"
hyper-util = { version = "=0.1.21", features = ["client", "client-legacy", "http1", "http2", "tokio"] }
log = "=0.4.35"
native-tls = "=0.2.18"
percent-encoding = "=2.3.2"
rustls-pki-types = "=1.15.1"
shadowsocks = { version = "=1.25.0", features = ["aead-cipher-2022"] }
tokio = { version = "=1.54.1", features = ["io-util", "net", "rt"] }
tokio-native-tls = "=0.3.1"
tokio-rustls = { version = "=0.26.6", default-features = false, features = ["ring", "tls12", "logging"] }
url = "=2.5.8"
