[package]
name = "ajars"
version = "0.1.0"
edition = "2021"
publish = false

[dependencies]
serde = { version = "=1.0.229", features = ["derive"] }
serde_json = "=1.0.154"
serde_urlencoded = "=0.7.1"
http = "=0.2.12"
thiserror = "=1.0.69"
futures-util = "=0.3.34"
tokio = { version = "=1.54.1", features = ["rt", "macros"] }
reqwest = { version = "=0.11.27", default-features = false, features = ["json"] }
axum = "=0.6.20"
actix-web = { version = "=4.18.1", default-features = false }
actix-rt = "=2.15.0"
port_check = "=0.1.5"
gloo-net = { version = "=0.4.0", default-features = false, features = ["http", "json"] }
gloo-utils = "=0.2.0"
wasm-bindgen = "=0.2.129"
wasm-bindgen-futures = "=0.4.79"
serde-wasm-bindgen = "=0.6.5"
web-sys = { version = "=0.3.106", features = ["Window", "Request", "RequestInit", "RequestMode", "Response", "Headers"] }
surf = { version = "2", default-features = false }
