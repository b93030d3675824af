[package]
name = "regex_etna"
version = "0.1.0"
edition = "2021"
publish = false

[dependencies]
proptest = "*"
quickcheck = "*"
crabcheck = "*"
hegel = "*"
