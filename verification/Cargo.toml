[package]
name = "qrscan"
version = "0.1.0"
edition = "2021"
publish = false

[dependencies]
dispatch2 = "*"
env_logger = "*"
log = "*"
objc2 = "*"
objc2-av-foundation = "*"
objc2-core-image = "*"
objc2-core-media = "*"
objc2-foundation = "*"
objc2-vision = "*"
