[package]
name = "auto_commit"
version = "0.1.0"
edition = "2021"
publish = false

[dependencies]
async-openai = "0.12"
clap = { version = "4", features = ["derive"] }
clap-verbosity-flag = "2"
env_logger = "0.10"
log = "0.4"
question = "0.2"
rand = "0.8"
schemars = "0.8"
serde = { version = "1", features = ["derive"] }
serde_json = "1"
spinners = "4"
tokio = { version = "1", features = ["macros", "rt-multi-thread"] }
