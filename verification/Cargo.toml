[package]
name = "wasm-verification-component"
version = "0.1.0"
edition = "2021"
publish = false

[dependencies]
anyhow = "1"
async-trait = "0.1"
clap = { version = "4", features = ["derive"] }
hex = "0.4"
serde = { version = "1", features = ["derive"] }
serde_json = "1"
sha2 = "0.10"
wasmtime = { version = "27", default-features = false, features = ["cranelift", "component-model", "runtime", "std"] }
wasmtime-wasi = { version = "27", default-features = false }
wasmtime-wasi-http = "27"
