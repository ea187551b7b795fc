[package]
name = "fl_caption"
version = "0.1.0"
edition = "2021"
publish = false

[dependencies]
anyhow = "1"
byteorder = "1"
candle-core = "*"
candle-nn = "*"
candle-transformers = "*"
rayon = "1"
serde_json = "1"
tokenizers = { version = "*", default-features = false, features = ["onig"] }
tokio = { version = "1", features = ["time", "rt", "macros"] }
tokio-util = "*"
