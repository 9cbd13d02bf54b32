[package]
name = "swap_router"
version = "0.1.0"
edition = "2021"
publish = false

[dependencies]
astroport = "=2.3.1"
cosmwasm-schema = "=1.5.11"
cosmwasm-std = "=1.5.11"
cw20 = "=0.15.1"
cw-storage-plus = "=0.15.1"
thiserror = "=1.0.69"
