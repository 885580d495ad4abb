[package]
name = "dyncert"
version = "0.1.0"
edition = "2021"
publish = false

[dependencies]
dashmap = "*"
rcgen = "*"
rustls = { version = "*", default-features = false, features = ["ring", "std"] }
rustls-pemfile = "*"

[dev-dependencies]
x509-parser = "*"
