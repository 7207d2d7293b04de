[package]
name = "emby_client"
version = "0.1.0"
edition = "2021"
publish = false

[dependencies]
url = "2"
fnv = "1"
uuid = { version = "1", features = ["v4"] }
reqwest = { version = "0.12", default-features = false }
tokio = { version = "1", features = ["rt", "sync", "macros"] }
xattr = "1"
hostname = "*"
