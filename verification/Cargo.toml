[package]
name = "token"
version = "0.1.0"
edition = "2021"
publish = false

[dependencies]
anyhow = "=1.0.104"
clap = { version = "=4.6.7", features = ["derive"] }
essential-app-utils = "=0.7.0"
essential-hash = "=0.9.0"
essential-rest-client = "=0.7.0"
essential-sign = "=0.9.0"
essential-signer = "=0.4.0"
essential-types = "=0.7.0"
essential-wallet = "=0.5.0"
hex = "=0.4.3"
rpassword = "=7.5.4"
tokio = { version = "=1.53.2", features = ["macros", "rt-multi-thread"] }
