[package]
name = "kyros"
version = "0.1.0"
edition = "2021"
publish = false

[dependencies]
flate2 = "*"
crc32fast = "*"
image = { version = "*", default-features = false, features = ["tiff"] }
png = "*"
clap = { version = "*", features = ["derive"] }
csscolorparser = "*"
serde = { version = "*", features = ["derive"] }
serde_json = "*"
tokio = { version = "*", features = ["rt-multi-thread", "sync", "macros"] }
indicatif = "*"

[dev-dependencies]
base64 = "*"
