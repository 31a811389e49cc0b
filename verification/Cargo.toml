[package]
name = "soljeets_smc"
version = "0.1.0"
edition = "2021"
publish = false

[dependencies]
bytemuck = "=1.25.2"
anchor-lang = { version = "=0.29.0", features = ["init-if-needed"] }
anchor-spl = { version = "=0.29.0", default-features = false, features = ["token", "token_2022", "associated_token", "metadata"] }
mpl-token-metadata = "=3.2.3"
