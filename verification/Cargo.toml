[package]
name = "gitlight"
version = "0.1.0"
edition = "2021"
publish = false

[dependencies]
cocoa = "0.24"
objc = "0.2"
