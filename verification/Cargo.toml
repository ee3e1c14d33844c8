[package]
name = "tlsproxy"
version = "0.1.0"
edition = "2021"
publish = false

[dependencies]
crossbeam = "*"
mio = "0.6"
native-tls = "*"
