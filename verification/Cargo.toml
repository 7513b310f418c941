[package]
name = "osrs_cli"
version = "1.3.0"
edition = "2021"
publish = false

[dependencies]
anyhow = "1"
async-trait = "0.1"
colored = "2"
comfy-table = "6"
derive_more = "0.99"
dialoguer = "0.10"
dirs = "4"
figment = { version = "0.10", features = ["json"] }
lazy_static = "1"
num-format = "0.4"
open = "3"
regex = "1"
reqwest = { version = "0.11", default-features = false, features = ["rustls-tls"] }
serde = { version = "1", features = ["derive"] }
serde_json = "1"
structopt = "0.3"
strum = { version = "0.24", features = ["derive"] }
thiserror = "1"
tokio = { version = "1", features = ["rt", "macros"] }
urlencoding = "2"
