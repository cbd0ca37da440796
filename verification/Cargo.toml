[package]
name = "dex_solana"
version = "0.1.0"
edition = "2021"
publish = false

[dependencies]
anchor-lang = { version = "0.30.1", features = ["init-if-needed", "event-cpi"] }
anchor-spl = "0.30.1"
arrayref = "0.3"
bytemuck = { version = "1", features = ["derive"] }
num_enum = "0.7"
