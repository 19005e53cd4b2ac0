[package]
name = "solana_explorer"
version = "0.1.0"
edition = "2021"
publish = false

[dependencies]
base64 = "*"
clap = { version = "4", features = ["derive"] }
colored = "*"
futures = "*"
mpl-token-metadata = "=5.1.1"
num-format = "*"
prettytable-rs = "*"
solana-sdk = "=2.3.1"
solana-transaction-status-client-types = "=2.3.13"
spl-token = { version = "=6.0.0", features = ["no-entrypoint"] }
spl-token-2022 = { version = "=6.0.0", features = ["no-entrypoint"] }
spl-token-metadata-interface = "=0.6.0"
spl-type-length-value = "=0.7.0"
terminal_size = "*"
tokio = { version = "1", features = ["rt", "macros"] }

[dev-dependencies]
bincode = "1"
