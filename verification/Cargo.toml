[package]
name = "basic_android_integration"
version = "0.1.0"
edition = "2021"
publish = false

[dependencies]
libloading = "=0.9.0"
jni = "=0.22.4"
ndk-sys = { version = "=0.6.0", features = ["test"] }
