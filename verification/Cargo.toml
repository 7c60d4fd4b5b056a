[package]
name = "rk3399os"
version = "0.1.0"
edition = "2021"
publish = false

[dependencies]
tock-registers = "=0.8.1"
cortex-a = "=8.1.1"
lazy_static = "=1.5.1"
