[package]
name = "ppapi"
version = "0.1.0"
edition = "2021"
publish = false

[dependencies]
httparse = "1"
url = "2"
hyper = { version = "1", default-features = false }
