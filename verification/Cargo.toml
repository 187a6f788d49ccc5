[package]
name = "fidget"
version = "0.1.0"
edition = "2021"
publish = false

[dependencies]
const_soft_float = "=0.1.4"
rustc_apfloat = "*"
thiserror = "=1.0.69"
