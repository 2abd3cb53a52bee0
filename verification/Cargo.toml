[package]
name = "vk_executive"
version = "0.1.0"
edition = "2021"
publish = false

[dependencies]
serde = { version = "1", features = ["derive"] }
serde_json = "1"
tokio = { version = "1", features = ["sync", "rt", "rt-multi-thread", "time", "macros"] }
url = "2"
comma_serde_urlencoded = "*"
vk_method = "*"
vk_execute_compiler = "*"
http = "0.2"
hyper = { version = "0.14", features = ["client", "http1", "http2", "tcp"] }
hyper-tls = "0.5"
tower = "0.4"
thiserror = "1"
futures = "0.3"
anyhow = "1"
async-trait = "0.1"
thisvk = "*"
