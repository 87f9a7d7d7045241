[package]
name = "wasmut"
version = "0.1.0"
edition = "2021"
publish = false

[dependencies]
regex = "=1.13.1"
md5 = "=0.7.0"
wasmut-wasm = { version = "=0.46.0", features = ["offsets"] }
serde = { version = "=1.0.229", features = ["derive"] }
serde_json = "=1.0.154"
toml = "=0.5.11"
clap = { version = "=3.2.25", features = ["derive"] }
anyhow = "=1.0.104"
log = "=0.4.35"
env_logger = "=0.9.3"
colored = "=2.2.0"
rayon = "=1.12.0"
num_cpus = "=1.17.0"
addr2line = "=0.17.0"
gimli = "=0.26.2"
object = { version = "=0.28.4", features = ["wasm"] }
chrono = "=0.4.45"
handlebars = "=4.5.0"
syntect = { version = "=5.3.0", default-features = false, features = ["default-fancy"] }
wasmer = "=2.3.0"
wasmer-compiler-singlepass = "=2.3.0"
wasmer-engine-universal = "=2.3.0"
wasmer-middlewares = "=2.3.0"
wasmer-wasi = "=2.3.0"
