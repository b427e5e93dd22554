[package]
name = "modelrun"
version = "0.1.0"
edition = "2021"
publish = false

[dependencies]
candle-core = "=0.11.0"
tokenizers = "=0.23.2"
hf-hub = { version = "=0.5.0", features = ["tokio"] }
rand = "*"
rand_distr = "*"
reqwest = { version = "*", default-features = false, features = ["json"] }
serde_json = "*"
tokio = { version = "*", features = ["macros", "rt-multi-thread"] }
urlencoding = "*"
