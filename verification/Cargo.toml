[package]
name = "shinqlx"
version = "0.1.0"
edition = "2021"
publish = false

[dependencies]
log = "0.4"
pyo3 = "0.22"
region = "3"
serde_json = "1"
zmq = "0.10"
