[package]
name = "ciart_studio"
version = "0.1.0"
edition = "2021"
publish = false

[dependencies]
objc = "=0.2.7"
raw-window-handle = "=0.6.2"
embed-resource = "=3.0.12"
