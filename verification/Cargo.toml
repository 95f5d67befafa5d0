[package]
name = "zygote"
version = "0.1.0"
edition = "2021"
publish = false

[dependencies]
libc = "0.2"
nix = { version = "0.29", features = ["process", "sched", "socket", "uio"] }
rmp-serde = "1"
serde = { version = "1", features = ["derive"] }
thiserror = "1"
