[package]
name = "wmproxy"
version = "0.2.4"
edition = "2021"
publish = false

[dependencies]
webparse = "0.1"
wenmeng = "0.1"
tokio = { version = "=1.54.1", features = ["full"] }
serde = { version = "=1.0.229", features = ["derive"] }
serde_yaml = "=0.9.34"
toml = "=0.8.23"
bpaf = { version = "=0.9.28", features = ["derive"] }
log = "=0.4.34"
