[package]
name = "excel_bridge"
version = "0.1.0"
edition = "2021"
publish = false

[dependencies]
calamine = "=0.36.1"
rust_xlsxwriter = "=0.99.1"
rmp-serde = "=1.3.1"
jni = "=0.21.1"
