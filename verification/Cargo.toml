[package]
name = "elementsd"
version = "0.1.0"
edition = "2021"
publish = false

[dependencies]
bitcoin_hashes = "*"
flate2 = "*"
tar = "*"
ureq = "*"
bitcoind = "*"
