[package]
name = "anchor_programs"
version = "0.1.0"
edition = "2021"
publish = false

[dependencies]
anchor-lang = { version = "=1.2.1", features = ["init-if-needed"] }
anchor-spl = "=1.2.1"
ephemeral-vrf-sdk = "=0.17.3"
spl-tlv-account-resolution = "=0.11.4"
