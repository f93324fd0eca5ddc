[package]
name = "tb_updater"
version = "0.1.0"
edition = "2021"
publish = false

[dependencies]
anyhow = "1"
bzip2 = "0.4"
http = "0.2"
indicatif = "0.17"
reqwest = "0.11"
scraper = "0.17"
serde = { version = "1", features = ["derive"] }
serde_json = "1"
structopt = "0.3"
tar = "0.4"
tokio = { version = "1", features = ["macros", "rt-multi-thread"] }
