[package]
name = "arm7tdmi"
version = "0.1.0"
edition = "2021"
publish = false

[dependencies]
bit = "=0.1.1"
bitvec = "=1.1.1"
thiserror = "=2.0.21"
