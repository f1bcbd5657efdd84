[package]
name = "cluster_mean"
version = "0.1.0"
edition = "2021"
publish = false

[dependencies]
anyhow = "1"
mpi = "*"
openssh = "*"
rand = "0.9"
rayon = "1"
tokio = { version = "1", features = ["macros", "rt-multi-thread"] }
