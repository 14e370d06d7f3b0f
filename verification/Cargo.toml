[package]
name = "k8s_maestro"
version = "0.4.0"
edition = "2021"
publish = false

[dependencies]
anyhow = "1"
async-stream = "*"
async-trait = "*"
axum = "*"
chrono = "*"
futures = "*"
git2 = { version = "*", default-features = false }
k8s-openapi = { version = "*", features = ["latest"] }
kube = { version = "*", default-features = false, features = ["client"] }
libloading = "*"
log = "*"
lru = "*"
reqwest = { version = "*", default-features = false, features = ["json", "blocking"] }
serde = { version = "1", features = ["derive"] }
serde_json = "1"
sha2 = "*"
thiserror = "*"
tokio = { version = "1", features = ["full"] }
toml = "*"
uuid = { version = "1", features = ["v4"] }
