[package]
name = "blockwheel_kv_ero"
version = "0.1.0"
edition = "2021"
publish = false

[dependencies]
arbeitssklave = "=0.23.0"
edeltraud = "=0.17.0"
ero = "=0.14.6"
futures = "=0.3.34"
log = "=0.4.34"
