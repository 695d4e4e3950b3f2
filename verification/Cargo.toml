[package]
name = "jdbd_bridge"
version = "0.1.0"
edition = "2021"
publish = false

[dependencies]
jni = "0.19"
mysql = { version = "*", default-features = false, features = ["minimal"] }
postgres = "*"
