[package]
name = "jvc"
version = "0.1.0"
edition = "2021"
publish = false

[dependencies]
anyhow = "=1.0.104"
async-trait = "=0.1.92"
chrono = "=0.4.45"
colored = "=2.2.0"
csv = "=1.4.0"
dirs = "=3.0.2"
env_logger = "=0.8.4"
flate2 = "=1.1.10"
indicatif = "0.17"
log = "=0.4.34"
reqwest = { version = "=0.11.27", features = ["json"] }
serde = { version = "=1.0.229", features = ["derive"] }
structopt = "=0.3.26"
symlink = "=0.1.0"
tar = "=0.4.46"
tokio = { version = "=1.54.1", features = ["fs", "io-util", "macros", "rt"] }
winreg = "0.50"
zip = "=0.5.13"
