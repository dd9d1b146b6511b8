[package]
name = "kube_client"
version = "0.1.0"
edition = "2021"
publish = false

[dependencies]
url = "=2.5.8"
serde_json = "=1.0.154"
chrono = { version = "=0.4.45", default-features = false, features = ["std"] }
rustls = { version = "=0.23.46", default-features = false, features = ["std", "ring", "tls12"] }
hyper = { version = "=1.12.0", features = ["client", "http1"] }
hyper-rustls = { version = "=0.27.10", default-features = false, features = ["http1", "ring", "tls12"] }
hyper-util = { version = "=0.1.21", features = ["client-legacy", "http1", "tokio"] }
http-body-util = "=0.1.5"
tokio = { version = "=1.54.1", features = ["rt", "time", "net"] }
