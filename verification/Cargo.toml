[package]
name = "app_icon"
version = "0.1.0"
edition = "2021"
publish = false

[dependencies]
anyhow = "1"
log = "0.4"
objc = "0.2"
cocoa = "0.26"
