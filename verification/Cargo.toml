[package]
name = "mdpls"
version = "0.1.0"
edition = "2021"
publish = false

[dependencies]
atoi = "=3.1.1"
aurelius = "=0.7.5"
buf_redux = "=0.8.4"
env_logger = "=0.11.11"
httparse = "=1.10.1"
log = "=0.4.34"
lsp-types = "=0.97.0"
serde_json = { version = "=1.0.154", features = ["preserve_order"] }
thiserror = "=1.0.69"
