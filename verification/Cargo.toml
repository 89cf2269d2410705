[package]
name = "rusthound-ce"
version = "2.3.0"
edition = "2021"
publish = false

[dependencies]
sha1 = "0.10"
chrono = "0.4"
x509-parser = "0.16"
bincode = "2"
serde = { version = "1", features = ["derive"] }
serde_json = "1"
ldap3 = { version = "0.11", default-features = false, features = ["tls-rustls"] }
tokio = { version = "1", features = ["rt-multi-thread", "macros"] }
clap = "4"
colored = "2"
env_logger = "0.10"
log = "0.4"
indicatif = "0.17"
rpassword = "7"
trust-dns-resolver = "0.23"
zip = { version = "0.6", default-features = false, features = ["deflate"] }
