[package]
name = "udp_dtls"
version = "0.1.0"
edition = "2021"
publish = false

[dependencies]
blake2 = "0.10"
digest = "0.10"
constant_time_eq = "*"
rand = "0.8"
sha1 = "0.10"
sha2 = "0.10"
openssl = "0.10"
openssl-probe = "*"
tokio = { version = "1", features = ["net", "rt", "io-util", "time", "macros"] }
tokio-openssl = "0.6"
futures = "0.3"
log = "0.4"
