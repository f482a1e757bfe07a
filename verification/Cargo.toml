[package]
name = "pck_chain"
version = "0.1.0"
edition = "2021"
publish = false

[dependencies]
ecdsa = "=0.16.9"
p256 = "=0.13.2"
pem = "=4.0.0"
spki = "=0.7.3"
x509-verify = { version = "=0.4.8", default-features = false, features = ["x509", "p256"] }

[dev-dependencies]
x509-cert = { version = "=0.2.5", features = ["builder"] }
