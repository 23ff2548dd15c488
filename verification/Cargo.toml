[package]
name = "ds"
version = "0.1.0"
edition = "2021"
publish = false

[dependencies]
semver = { version = "1", features = ["serde"] }
url = "2"
ssri = "9"
chrono = { version = "0.4", features = ["serde"] }
anyhow = "1"
thiserror = "1"
async-trait = "0.1"
async-std = { version = "1", features = ["attributes"] }
structopt = "0.3"
clap = "2"
config = { version = "0.10", default-features = false, features = ["toml"] }
directories = "5"
serde = { version = "1", features = ["derive"] }
serde_json = "1"
surf = { version = "2", default-features = false, features = ["h1-client-rustls"] }
