[package]
name = "url_bridge"
version = "0.1.0"
edition = "2021"
publish = false

[dependencies]
url = "=2.5.8"
boa_engine = "=0.22.0"
boa_gc = "=0.22.0"
