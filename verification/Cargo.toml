[package]
name = "mimalloc_arena"
version = "0.1.0"
edition = "2021"
publish = false

[dependencies]
anyhow = "=1.0.104"
libmimalloc-sys = { version = "=0.1.49", features = ["extended", "arena", "v2"] }
