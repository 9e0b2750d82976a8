[package]
name = "caseus_foratus_helveticus"
version = "0.1.0"
edition = "2021"
publish = false

[dependencies]
async-trait = "=0.1.92"
chrono = "=0.4.45"
log = "=0.4.34"
pretty_env_logger = "=0.5.0"
rand = "=0.8.8"
reqwest = "=0.11.27"
serde_json = "=1.0.154"
takecell = "<0.1.2"
teloxide = "=0.12.2"
tokio = { version = "=1.54.1", features = ["full"] }
url = "=2.5.8"
