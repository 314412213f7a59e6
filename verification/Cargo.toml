[package]
name = "rocketsim_py"
version = "0.1.0"
edition = "2021"
publish = false

[dependencies]
rocketsim_rs = { version = "=0.34.0", default-features = false }
pyo3 = "=0.30.1"
