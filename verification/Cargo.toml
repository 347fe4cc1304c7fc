[package]
name = "solzempic"
version = "0.1.0"
edition = "2021"
publish = false

[dependencies]
bytemuck = { version = "=1.25.2", features = ["min_const_generics"] }
pinocchio = { version = "=0.11.2", features = ["cpi"] }
pinocchio-pubkey = "=0.3.0"
proc-macro2 = "=1.0.107"
quote = "=1.0.47"
solana-address = { version = "=2.9.0", features = ["curve25519"] }
syn = { version = "=2.0.119", features = ["full"] }
