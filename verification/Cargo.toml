[package]
name = "neuralnet_rs"
version = "0.1.0"
edition = "2021"
publish = false

[dependencies]
ndarray = { version = "=0.16.1", features = ["serde"] }
onnx-pb = "=0.1.4"
prost = "=0.6.1"
rand = "=0.9.5"
rand_distr = "=0.5.1"
rmp-serde = "=1.3.1"
serde = { version = "=1.0.229", features = ["derive"] }
