[package]
name = "eoka"
version = "0.1.0"
edition = "2021"
publish = false

[dependencies]
aho-corasick = "*"
base64 = "*"
image = { version = "*", default-features = false, features = ["png", "jpeg"] }
imageproc = { version = "*", default-features = false }
memmap2 = "*"
rand = "*"
serde = { version = "*", features = ["derive"] }
serde_json = "*"
smallvec = "*"
thiserror = "*"
tokio = { version = "*", default-features = false, features = ["sync", "time", "rt", "macros"] }
