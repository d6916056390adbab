[package]
name = "cln_client"
version = "0.1.0"
edition = "2021"
publish = false

[dependencies]
anyhow = "=1.0.104"
clap = { version = "=4.6.7", features = ["derive", "env"] }
cln-grpc = "=0.7.0"
dotenv = "=0.15.0"
env_logger = "=0.11.11"
hex = "=0.4.3"
log = "=0.4.34"
tokio = { version = "=1.54.1", features = ["macros", "rt-multi-thread", "time", "fs"] }
tonic = { version = "=0.14.6", features = ["tls-ring", "transport"] }
