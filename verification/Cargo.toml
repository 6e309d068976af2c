[package]
name = "devutils"
version = "0.1.0"
edition = "2021"
publish = false

[dependencies]
serde = { version = "=1.0.229", features = ["derive"] }
serde_json = "=1.0.154"
toml = "=0.8.23"
dirs = "=5.0.1"
regex = "=1.13.1"
clap = { version = "4", features = ["derive"] }
chrono = "0.4"
md5 = "0.7"
sha1 = "0.10"
sha2 = "0.10"
blake3 = { version = "1", features = ["pure"] }
crc32fast = "1"
adler = "1"
base64 = "0.22"
urlencoding = "2"
html-escape = "0.2"
uuid = { version = "1", features = ["v4", "v7"] }
rand = "0.8"
