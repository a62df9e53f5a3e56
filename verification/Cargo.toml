[package]
name = "minknow_client"
version = "0.1.0"
edition = "2021"
publish = false

[dependencies]
hyper = { version = "=0.14.32", features = ["full"] }
hyper-openssl = "=0.9.2"
openssl = "=0.10.81"
tonic = "=0.7.2"
tonic-openssl = "=0.2.0"
prost = "=0.10.4"
prost-types = "0.10"
tower = "=0.4.13"
tokio = { version = "1", features = ["full"] }
tokio-stream = "0.1"
bytes = "=1.12.1"
http-body = "=0.4.6"
