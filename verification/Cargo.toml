[package]
name = "finviz_rs"
version = "0.1.0"
edition = "2021"
publish = false

[dependencies]
scraper = "*"
serde_json = "*"
tabled = "*"
csv = "*"
async-trait = "*"
reqwest = { version = "*", default-features = false, features = ["blocking"] }
