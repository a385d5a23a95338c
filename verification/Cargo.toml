[package]
name = "lazymc_docker_proxy"
version = "0.1.0"
edition = "2021"
publish = false

[dependencies]
bollard = "=0.21.1"
clap = { version = "=4.6.7", features = ["derive"] }
ctrlc = "=3.5.2"
futures = "=0.3.34"
k8s-openapi = { version = "=0.27.1", features = ["latest"] }
kube = "=3.1.0"
log = "=0.4.34"
pretty_env_logger = "=0.5.0"
serde = { version = "=1.0.229", features = ["derive"] }
serde_json = "=1.0.151"
tokio = { version = "=1.53.2", features = ["rt-multi-thread"] }
toml = "=1.1.7"
version-compare = "=0.2.1"
zbus = "=5.19.0"
