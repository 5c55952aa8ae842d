[package]
name = "token_cli_config"
version = "0.1.0"
edition = "2021"
publish = false

[dependencies]
clap = "2.33.3"
dirs-next = "2.0.0"
solana-clap-utils = "=1.17.14"
solana-cli-config = "=1.17.14"
solana-remote-wallet = { version = "=1.17.14", default-features = false }
solana-sdk = "=1.17.14"
spl-associated-token-account = { version = "=2.3.0", features = ["no-entrypoint"] }
spl-memo = { version = "=4.0.0", features = ["no-entrypoint"] }
spl-token = { version = "=4.0.0", features = ["no-entrypoint"] }
spl-token-2022 = { version = "=1.0.0", features = ["no-entrypoint"] }
url = "=2.5.8"
