[package]
name = "vpn-helper"
version = "0.1.0"
edition = "2021"
publish = false

[dependencies]
anyhow = "1"
clap = "4"
dotenv = "0.15"
nix = { version = "*", features = ["user"] }
totp-rs = "5"
which = "*"
