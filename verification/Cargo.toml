[package]
name = "devand"
version = "0.1.0"
edition = "2021"
publish = false

[dependencies]
anyhow = "1"
chrono = { version = "0.4", features = ["serde"] }
gloo = "0.2"
http = "0.2"
jsonrpc-core = "14"
jsonrpc-core-client = { version = "14", features = ["http"] }
jsonrpc-derive = "14"
lettre = "0.9"
lettre_email = "0.9"
log = "0.4"
serde = { version = "1", features = ["derive"] }
serde_derive = "1"
serde_json = "1"
tokio = "0.1"
wasm-bindgen = "0.2"
web-sys = { version = "0.3", features = ["BeforeUnloadEvent", "Window"] }
yew = { version = "0.16", features = ["web_sys"] }
