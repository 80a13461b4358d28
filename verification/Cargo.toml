[package]
name = "libcamera"
version = "0.1.0"
edition = "2021"
publish = false

[dependencies]
semver = "1"
yaml-rust = "0.4"
syn = { version = "2", features = ["full"] }
prettyplease = "0.2"
drm-fourcc = "2"
git2 = { version = "0.19", default-features = false }
