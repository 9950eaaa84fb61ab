[package]
name = "sparklers"
version = "0.1.0"
edition = "2021"
publish = false

[dependencies]
url = "2"
thiserror = "2"
log = "0.4"
objc2 = "0.6"
objc2-foundation = "0.3"
dispatch2 = "0.3"
