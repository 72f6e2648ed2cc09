[package]
name = "proxy-fw-ssh"
version = "0.1.0"
edition = "2021"
publish = false

[dependencies]
async-channel = "=2.5.0"
dashmap = "=6.2.1"
env_logger = "=0.11.11"
fast-socks5 = "=1.0.0"
gtk4 = "=0.11.5"
log = "=0.4.35"
russh = "=0.60.3"
serde = { version = "=1.0.229", features = ["derive"] }
shlex = "=1.3.0"
structopt = "=0.3.26"
tokio = { version = "=1.54.1", features = ["full"] }
toml = "=1.1.8"
