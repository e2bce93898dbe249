[package]
name = "streamflow"
version = "0.1.0"
edition = "2021"
publish = false

[dependencies]
solana-pubkey = { version = "=3.0.0", features = ["curve25519"] }
solana-sdk-ids = "=3.1.0"
solana-program-pack = "=3.1.0"
solana-program-error = "=3.0.1"
solana-account-info = "=3.1.1"
solana-cpi = "=3.1.0"
solana-clock = "=3.2.1"
solana-rent = "=3.1.0"
solana-sysvar = "=3.1.1"
solana-system-interface = "=2.0.0"
solana-instruction = "=3.5.1"
spl-token = { version = "=9.0.0", features = ["no-entrypoint"] }
spl-associated-token-account = { version = "=8.0.0", features = ["no-entrypoint"] }
