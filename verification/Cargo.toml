[package]
name = "ji"
version = "0.1.0"
edition = "2021"
publish = false

[dependencies]
anyhow = "1"
blake3 = "1"
clap = { version = "4", features = ["derive"] }
clap_complete = { version = "4", features = ["unstable-dynamic"] }
humantime = "2"
libproc = "0.14"
semver = "1"
serde = { version = "1", features = ["derive"] }
serde_json = "1"
toml = "*"
unicode-segmentation = "1"
unicode-width = "0.2"
xattr = "1"
