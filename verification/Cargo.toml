[package]
name = "nimbus_alt"
version = "0.1.0"
edition = "2021"
publish = false

[dependencies]
serde = { version = "*", features = ["derive"] }
serde_json = "*"
toml = "*"
clap = "*"
dirs = "*"
dotenv = "*"
env_logger = "*"
log = "*"
reqwest = { version = "*", default-features = false, features = ["blocking", "json"] }

[dev-dependencies]
url = "*"
