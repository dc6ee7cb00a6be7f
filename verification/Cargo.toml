[package]
name = "neural_net"
version = "0.1.0"
edition = "2021"
publish = false

[dependencies]
byteorder = "1"
chrono = "0.4"
flate2 = "1"
libm = "0.2"
ndarray = { version = "0.15", features = ["serde"] }
ndarray-linalg = "0.16"
ndarray-rand = "0.14"
rand = "0.8"
serde = { version = "1", features = ["derive"] }
serde_json = "1"
