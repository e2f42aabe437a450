[package]
name = "repo_writer"
version = "0.1.0"
edition = "2021"
publish = false

[dependencies]
git2 = { version = "0.13", default-features = false }
path-clean = "0.1"
rand = "0.7"
uuid = { version = "0.8", features = ["v4"] }
validator = "*"
actix-web = "4"
serde = { version = "1", features = ["derive"] }
thiserror = "1"
log = "0.4"

[dev-dependencies]
tempfile = "3"
