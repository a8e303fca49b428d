[package]
name = "wisp2socks"
version = "0.1.0"
edition = "2021"
publish = false

[dependencies]
anyhow = "=1.0.104"
async-trait = "*"
bytes = "*"
fast-socks5 = "=1.0.0"
futures = "*"
http = "=1.5.0"
jni = "=0.22.4"
reqwest = { version = "=0.12.28", default-features = false, features = ["socks", "rustls-tls"] }
tokio = { version = "=1.53.2", features = ["rt-multi-thread", "net", "io-util", "sync", "macros", "time"] }
tokio-util = { version = "=0.7.19", features = ["compat"] }
tokio-websockets = { version = "=0.13.3", features = ["client", "sha1_smol", "rand"] }
wisp-mux = "=5.1.0"
