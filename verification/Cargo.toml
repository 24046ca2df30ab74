[package]
name = "burncloud_auto_update"
version = "0.1.0"
edition = "2021"
publish = false

[dependencies]
semver = "*"
self_update = "*"
log = "*"
