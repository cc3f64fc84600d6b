[package]
name = "funnelctl"
version = "0.1.0"
edition = "2021"
publish = false

[dependencies]
async-trait = "=0.1.92"
base64 = "=0.23.1"
bytes = "=1.12.1"
chrono = { version = "=0.4.45", features = ["serde"] }
clap = { version = "=4.6.7", features = ["derive"] }
clap_complete = "=4.6.11"
fs4 = "=1.1.0"
futures = "=0.3.34"
http-body-util = "=0.1.5"
humantime = "=2.4.0"
hyper = { version = "=1.11.1", features = ["full"] }
hyper-util = { version = "=0.1.21", features = ["client-legacy", "http1", "tokio"] }
hyperlocal = "=0.9.1"
libc = "=0.2.190"
rand = "=0.8.8"
serde = { version = "=1.0.229", features = ["derive"] }
serde_json = "=1.0.151"
supports-color = "=3.0.2"
tokio = { version = "=1.53.2", features = ["full"] }
tokio-util = { version = "=0.7.19", features = ["codec", "io"] }
url = "=2.5.8"
