[package]
name = "ps1"
version = "0.1.0"
edition = "2021"
publish = false

[dependencies]
ansi_term = "0.12"
dirs = "*"
git2 = { version = "*", default-features = false }
k8s-openapi = { version = "*", features = ["latest"] }
kube-client = { version = "*", default-features = false, features = ["config"] }
tico = "*"
