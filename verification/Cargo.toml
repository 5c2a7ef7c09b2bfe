[package]
name = "mars_raw_utils"
version = "0.1.0"
edition = "2021"
publish = false

[dependencies]
regex = "1"
url = "2"
sciimg = "*"
anyhow = "1"
serde = { version = "1", features = ["derive"] }
serde_json = "1"
toml = "*"
dirs = "*"
lazy_static = "1"
reqwest = { version = "*", default-features = false }
tokio = { version = "1", features = ["rt-multi-thread", "macros"] }
futures = "0.3"
futures-util = "0.3"
gif = "*"
chrono = "0.4"
itertools = "*"
rayon = "1"
clap = "*"
colored = "*"
json = "*"
