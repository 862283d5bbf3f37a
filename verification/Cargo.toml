[package]
name = "ycsb_harness"
version = "0.1.0"
edition = "2021"
publish = false

[dependencies]
clap = { version = "4", features = ["derive"] }
dashmap = "5"
rand = "0.8"
rand_distr = "0.4"
