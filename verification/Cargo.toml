[package]
name = "gel_protocol"
version = "0.1.0"
edition = "2021"
publish = false

[dependencies]
bytes = "=1.12.1"
rustls-pki-types = "=1.15.1"
thiserror = "=2.0.21"
gel-errors = "=0.5.4"
openssl = "=0.10.82"
openssl-sys = "=0.9.118"
rustls = { version = "=0.23.46", default-features = false, features = ["std"] }
rustls-webpki = { version = "=0.103.16", default-features = false, features = ["std"] }
proc-macro2 = "=1.0.107"
quote = "=1.0.47"
syn = { version = "=2.0.119", features = ["full"] }
gel-protogen = "*"
