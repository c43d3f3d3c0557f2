[package]
name = "code_mmunity_server"
version = "0.1.0"
edition = "2021"
publish = false

[dependencies]
actix-cors = "=0.6.5"
actix-web = "=4.18.1"
mysql = { version = "=28.0.4", features = ["rustls-tls-ring"] }
serde = { version = "=1.0.229", features = ["derive"] }
