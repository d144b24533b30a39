[package]
name = "sv2_router"
version = "0.1.0"
edition = "2021"

[dependencies]
binary_sv2 = "1.2"
bitcoin = "0.32"
codec_sv2 = { version = "=1.2.1", features = ["noise_sv2", "with_buffer_pool"] }
demand-share-accounting-ext = "0.0.12"
demand-sv2-connection = "0.0.4"
key-utils = "=1.2.0"
lazy_static = "1"
noise_sv2 = "1"
primitive-types = "=0.13.1"
roles_logic_sv2 = "=1.2.1"
serde_json = "1"
sv1_api = "=1.0.1"
tokio = { version = "1", features = ["full"] }
tracing = "0.1"
