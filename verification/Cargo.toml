[package]
name = "router"
version = "0.1.0"
edition = "2021"
publish = false

[dependencies]
actix-multipart = { version = "=0.6.2", default-features = false }
async-trait = "=0.1.92"
futures = "=0.3.34"
serde = { version = "=1.0.229", features = ["derive"] }
serde_json = "=1.0.154"
time = "=0.3.55"
utoipa = "3"
