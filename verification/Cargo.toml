[package]
name = "sigv4"
version = "0.1.0"
edition = "2021"
publish = false

[dependencies]
colored = "2"
colored_json = "3"
env_logger = "0.10"
futures = "0.3"
rusoto_core = { version = "0.48", default-features = false, features = ["rustls"] }
structopt = "0.3"
