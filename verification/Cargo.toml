[package]
name = "sudachi_plugin"
version = "0.1.0"
edition = "2021"
publish = false

[dependencies]
libloading = "0.8"
serde_json = "1"
thiserror = "1"
