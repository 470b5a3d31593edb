[package]
name = "nft_vault_swap"
version = "0.1.0"
edition = "2021"
publish = false

[dependencies]
anchor-lang = "0.28.0"
anchor-spl = { version = "0.28.0", default-features = false, features = ["token"] }
mpl-token-metadata = { version = "1.13", default-features = false, features = ["no-entrypoint"] }
