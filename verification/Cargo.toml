[package]
name = "twin_connector"
version = "0.1.0"
edition = "2021"
publish = false

[dependencies]
actix = "0.13"
anyhow = "1"
async-trait = "0.1"
dotenv = "0.15"
iotics-grpc-client = "*"
log = "0.4"
serde_json = "1"
time = { version = "0.3", features = ["formatting"] }
