[package]
name = "a3c_soc_auth0_events"
version = "0.1.0"
edition = "2021"
publish = false

[dependencies]
serde = { version = "1", features = ["derive"] }
serde_json = "1"
log = "0.4"
log4rs = "1"
actix-web = "4"
actix-cors = "0.7"
anyhow = "1"
clap = { version = "4", features = ["derive"] }
config = "0.13"
derive_more = "0.99"
futures-util = "0.3"
