[package]
name = "echokit_terminal"
version = "0.1.0"
edition = "2021"
publish = false

[dependencies]
anyhow = "=1.0.104"
axum = { version = "=0.8.9", features = ["ws"] }
clap = { version = "=4.6.7", features = ["derive", "env"] }
env_logger = "=0.11.11"
linemux = "=0.3.0"
log = "=0.4.34"
pty-process = { version = "=0.5.3", features = ["async"] }
serde = { version = "=1.0.229", features = ["derive"] }
serde_json = "=1.0.151"
tokio = { version = "=1.53.2", features = ["full"] }
tower-http = { version = "=0.7.1", features = ["fs"] }
uuid = { version = "=1.27.0", features = ["v4"] }
