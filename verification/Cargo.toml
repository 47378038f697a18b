[package]
name = "ak_operator"
version = "0.1.0"
edition = "2021"
publish = false

[dependencies]
urlencoding = "*"
serde_json = "*"
serde = { version = "*", features = ["derive"] }
reqwest = { version = "*", default-features = false, features = ["json"] }
kube = { version = "*", default-features = false, features = ["client"] }
k8s-openapi = { version = "*", features = ["latest"] }
tokio = { version = "*", features = ["rt-multi-thread", "macros"] }
async-trait = "*"
thiserror = "*"
