[package]
name = "quickbooks"
version = "0.1.0"
edition = "2021"
publish = false

[dependencies]
http-auth-basic = "0.3"
reqwest = { version = "0.11", default-features = false, features = ["blocking", "json", "rustls-tls"] }
serde = { version = "1", features = ["derive"] }
ureq = { version = "2", features = ["json"] }
