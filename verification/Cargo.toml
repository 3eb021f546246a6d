[package]
name = "tuxedo"
version = "0.1.0"
edition = "2021"
publish = false

[dependencies]
async-trait = "0.1"
bson = "2"
fake = "*"
futures-util = "0.3"
indicatif = "0.17"
mongodb = "3"
num_cpus = "1"
rayon = "1"
serde = { version = "1", features = ["derive"] }
serde_json = "1"
thiserror = "1"
tokio = { version = "1", features = ["rt-multi-thread", "macros", "sync"] }
url = "2"
