[package]
name = "acs_email"
version = "0.1.0"
edition = "2021"
publish = false

[dependencies]
base64 = "*"
sha2 = "*"
hmac = "*"
url = "*"
httpdate = "*"
uuid = { version = "*", features = ["v4"] }
serde = { version = "*", features = ["derive"] }
serde_json = "*"
reqwest = { version = "*", default-features = false, features = ["json"] }
tokio = { version = "*", features = ["rt", "rt-multi-thread", "time", "sync", "macros"] }
azure_core = { version = "*", default-features = false }
azure_identity = { version = "*", default-features = false }
clap = { version = "*", features = ["derive"] }
dotenv = "*"
lettre = { version = "*", default-features = false, features = ["smtp-transport", "builder"] }
log = "*"
pretty_env_logger = "*"
