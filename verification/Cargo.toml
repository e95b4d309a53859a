[package]
name = "pksc"
version = "0.1.0"
edition = "2021"
publish = false

[dependencies]
petgraph = "*"
fancy-regex = "*"
sha2 = "*"
sha3 = "*"
md-5 = "*"
digest = "*"
hex = "*"
crc32fast = "*"
xxhash-rust = { version = "*", features = ["xxh3"] }
adler32fast = "*"
mlua = { version = "0.10", features = ["luajit", "vendored", "serialize", "async"] }
flate2 = "*"
tar = "*"
zip = { version = "*", default-features = false, features = ["deflate"] }
anyhow = "*"
glob = "*"
reqwest = { version = "*", default-features = false }
tokio = { version = "*", features = ["rt-multi-thread"] }
include_dir = "*"
once_cell = "*"
clap = { version = "*", features = ["derive"] }
colored = "*"
serde_json = "*"
toml = "*"
serde_yml = "*"
serde_ini = "*"
