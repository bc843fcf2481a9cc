[package]
name = "http_message"
version = "0.1.0"
edition = "2021"
publish = false

[dependencies]
httparse = "=1.10.1"
hyper = { version = "=0.10.16", default-features = false }
rotor-stream = "=0.5.1"
netbuf = "=0.4.1"
