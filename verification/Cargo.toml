[package]
name = "kuroba_ex_native"
version = "0.1.0"
edition = "2021"
publish = false

[dependencies]
jni = "=0.19.0"
log = "=0.4.34"
android_logger = "=0.10.1"
