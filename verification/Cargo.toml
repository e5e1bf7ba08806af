[package]
name = "kubediff"
version = "0.1.0"
edition = "2021"
publish = false

[dependencies]
anyhow = "*"
bat = { version = "*", default-features = false, features = ["regex-fancy"] }
clap = { version = "*", features = ["derive"] }
colored = "*"
dirs = "*"
glob = "*"
k8s-openapi = { version = "*", features = ["latest"] }
kube = "*"
rayon = "*"
regex = "*"
serde = { version = "*", features = ["derive"] }
serde_json = "*"
serde_yaml = "*"
similar = "*"
tokio = { version = "*", features = ["macros", "rt-multi-thread"] }
