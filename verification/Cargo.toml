[package]
name = "odoo"
version = "0.1.0"
edition = "2021"
publish = false

[dependencies]
chrono = "0.4"
clap = "2"
iso8601 = "0.4"
reqwest = { version = "0.11", features = ["blocking"] }
serde = { version = "1", features = ["derive"] }
serde_derive = "1"
serde_json = "1"
xmlrpc = "0.15"
