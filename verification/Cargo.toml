[package]
name = "chain_proxy"
version = "0.1.0"
edition = "2021"
publish = false

[dependencies]
serde_json = "*"
rand = "*"
base64 = "*"
url = "*"
prometheus = "*"
pingora = "*"
pingora-core = "*"
pingora-proxy = "*"
pingora-load-balancing = "*"
async-trait = "*"
bytes = "*"
http = "*"
reqwest = { version = "*", default-features = false }
log = "*"
log4rs = "*"
structopt = "*"
lazy_static = "*"
serde = { version = "*", features = ["derive"] }
serde_yaml = "*"
