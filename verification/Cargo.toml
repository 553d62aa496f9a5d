[package]
name = "jsandbox"
version = "0.1.0"
edition = "2021"
publish = false

[dependencies]
rquickjs = { version = "=0.6.2", features = ["loader", "futures"] }
wasm-bindgen = "=0.2.129"
wasm-bindgen-futures = "=0.4.79"
js-sys = "=0.3.106"
thiserror = "=1.0.69"
paste = "=1.0.15"
anyhow = "=1.0.104"
clap = { version = "=4.6.7", features = ["derive"] }
tokio = { version = "=1.54.1", features = ["full"] }
brotli = { version = "=9.0.0", features = ["portable-float"] }
binaryen = "=0.13.0"
cargo_toml = "=1.0.1"
wasm-bindgen-cli-support = "=0.2.129"
