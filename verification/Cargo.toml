[package]
name = "trunk_config"
version = "0.1.0"
edition = "2021"
publish = false

[dependencies]
anyhow = "1"
envy = "0.4"
http-types = { version = "2", default-features = false }
regex = "1"
serde = { version = "1", features = ["derive"] }
structopt = "0.3"
toml = "0.5"
