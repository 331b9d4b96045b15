[package]
name = "pokemon2rdf"
version = "0.1.0"
edition = "2021"
publish = false

[dependencies]
oxrdf = "*"
rustemon = "*"
tokio = { version = "*", features = ["full"] }
indicatif = "*"
chrono = "*"
