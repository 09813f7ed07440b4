[package]
name = "cjk_search"
version = "0.1.0"
edition = "2021"
publish = false

[dependencies]
tantivy = "=0.26.2"
lindera = "=5.3.0"
lindera-tantivy = "=5.0.1"
serde_json = "=1.0.154"
flutter_rust_bridge = "=2.13.0"
