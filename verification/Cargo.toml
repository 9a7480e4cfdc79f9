[package]
name = "lovely-core"
version = "0.1.0"
edition = "2021"
publish = false

[dependencies]
dobby-rs = "*"
itertools = "0.13"
jni = "0.21"
libloading = "0.8"
log = "0.4"
