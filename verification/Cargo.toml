[package]
name = "shuttle"
version = "0.40.0"
edition = "2021"
publish = false

[dependencies]
async-trait = "0.1"
axum = { version = "=0.6.20", features = ["headers"] }
axum-sessions = "=0.5.0"
bollard = "0.15"
chrono = "0.4"
clap = { version = "4", features = ["derive"] }
fqdn = "=0.3.12"
futures = "0.3"
http = "0.2"
hyper = { version = "0.14", features = ["client", "http1", "server", "tcp"] }
instant-acme = "0.2"
k8s-openapi = { version = "0.20", features = ["v1_28"] }
kube = { version = "=0.87.2", default-features = false, features = ["client", "rustls-tls", "runtime"] }
num_cpus = "=1.17.0"
once_cell = "1"
rand = "=0.8.8"
serde = { version = "1", features = ["derive"] }
serde_json = "1"
sqlx = { version = "=0.7.4", default-features = false, features = ["runtime-tokio", "sqlite", "chrono"] }
strum = { version = "0.26", features = ["derive"] }
thiserror = "1"
time = "=0.3.55"
tokio = { version = "=1.54.1", features = ["full"] }
tower = "0.4"
tracing = "0.1"
tracing-subscriber = "0.3"
ttl_cache = "=0.5.1"
ulid = "=1.2.1"
uuid = { version = "1", features = ["serde"] }
x509-parser = "=0.15.1"
