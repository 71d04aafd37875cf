[package]
name = "capbridge"
version = "0.1.0"
edition = "2021"
publish = false

[dependencies]
async-trait = "=0.1.92"
wasi-common = "=46.0.3"
wasmtime = "=46.0.3"
wiggle = "=46.0.3"
