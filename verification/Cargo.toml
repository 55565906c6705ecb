[package]
name = "burp_rust_lib"
version = "0.1.0"
edition = "2021"
publish = false

[dependencies]
const-hex = "=1.19.3"
edge-executor = "0.4"
embedded-svc = "0.26"
esp-idf-hal = "0.42"
esp-idf-svc = "0.47"
esp-idf-sys = "=0.33.7"
heapless = "=0.7.17"
log = "=0.4.34"
thiserror = "=1.0.69"
toml-cfg = "=0.1.3"
