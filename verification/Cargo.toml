[package]
name = "aws-s3-webdav"
version = "0.1.0"
edition = "2021"
publish = false

[dependencies]
actix-web = { version = "*", default-features = false }
bytes = "*"
clap = { version = "*", features = ["env"] }
env_logger = "*"
futures = "*"
log = "*"
rusoto_core = { version = "*", default-features = false, features = ["rustls"] }
rusoto_s3 = { version = "*", default-features = false, features = ["rustls"] }
