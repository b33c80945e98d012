[package]
name = "kubernetes-version-exporter"
version = "0.1.0"
edition = "2021"
publish = false

[dependencies]
prometheus = { version = "=0.14.0", default-features = false }
kube = "=3.1.0"
k8s-openapi = { version = "=0.27.1", features = ["latest"] }
actix-web = { version = "=4.18.1", default-features = false, features = ["macros"] }
actix-web-prom = "=0.10.0"
actix-rt = "=2.15.0"
tokio = { version = "=1.54.1", features = ["rt-multi-thread"] }
