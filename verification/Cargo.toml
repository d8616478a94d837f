[package]
name = "tmapi"
version = "0.1.0"
edition = "2021"
publish = false

[dependencies]
email_address = "*"
reqwest = { version = "*", default-features = false, features = ["json"] }
serde = { version = "*", features = ["derive"] }
thiserror = "*"
