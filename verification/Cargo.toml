[package]
name = "signing_manager"
version = "0.1.0"
edition = "2021"
publish = false

[dependencies]
blst = "=0.3.17"
k256 = "=0.13.4"
rand = "=0.8.8"
tree_hash = "=0.12.1"
