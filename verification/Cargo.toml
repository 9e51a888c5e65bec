[package]
name = "vault_unseal"
version = "0.1.0"
edition = "2021"
publish = false

[dependencies]
bitwarden = { version = "=0.5.0", features = ["secrets"] }
clap = { version = "*", default-features = false, features = ["std", "derive", "help", "usage", "error-context"] }
dotenvy = "*"
error-stack = "*"
figment = { version = "*", features = ["toml", "yaml", "json", "env"] }
futures = "*"
rustls = { version = "*", default-features = false, features = ["ring", "logging", "std", "tls12"] }
serde = { version = "*", features = ["derive"] }
supports-color = "*"
supports-unicode = "*"
thiserror = "*"
tokio = { version = "*", features = ["macros", "rt-multi-thread", "signal", "time"] }
tokio-util = "=0.7.19"
tracing = "*"
tracing-subscriber = { version = "*", features = ["json"] }
url = { version = "=2.5.8", features = ["serde"] }
uuid = { version = "=1.27.0", features = ["serde"] }
vaultrs = "=0.8.0"
