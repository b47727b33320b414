[package]
name = "dhcp_parser"
version = "0.1.0"
edition = "2021"
publish = false

[dependencies]
nom = { version = "5", default-features = false, features = ["std"] }
rusticata-macros = "2"
