[package]
name = "doip_sockets"
version = "0.1.0"
edition = "2021"
publish = false

[dependencies]
doip-codec = "*"
doip-definitions = "*"
futures = "*"
openssl = "*"
thiserror = "*"
tokio = { version = "*", features = ["net", "io-util", "rt", "macros", "time"] }
tokio-openssl = "*"
tokio-util = { version = "*", features = ["codec", "net"] }
