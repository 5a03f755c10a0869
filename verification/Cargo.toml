[package]
name = "http_kit"
version = "0.1.0"
edition = "2021"
publish = false

[dependencies]
anyhow = "1"
async-trait = "0.1"
bytes = "1"
bytestr = "*"
futures-lite = "2"
http = "0.2"
http-body = "0.4"
mime = "0.3"
serde = "1"
serde_json = "1"
serde_urlencoded = "0.7"
