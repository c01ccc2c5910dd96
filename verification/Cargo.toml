[package]
name = "autara_lib"
version = "0.1.0"
edition = "2021"
publish = false

[dependencies]
fixed = "=1.31.0"
hex = "=0.4.3"
anyhow = "=1.0.104"
thiserror = "=1.0.69"
serde = { version = "=1.0.229", features = ["derive"] }
serde_json = "=1.0.154"
clap = { version = "=4.6.7", features = ["derive"] }
arch_program = "=0.13.0"
apl-token = { version = "=0.13.0", features = ["no-entrypoint"] }
apl-associated-token-account = { version = "=0.13.0", features = ["no-entrypoint"] }
