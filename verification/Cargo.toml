[package]
name = "simfs"
version = "0.1.0"
edition = "2021"
publish = false

[dependencies]
snap-buf = "*"
atomic_refcell = "*"
futures = "*"
madsim = "*"
pin-project-lite = "*"
tokio = { version = "1", features = ["fs", "io-util"] }
