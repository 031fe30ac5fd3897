[package]
name = "mmap_io"
version = "0.1.0"
edition = "2021"
publish = false

[dependencies]
cfg-if = "*"
libc = "0.2"
memmap2 = "*"
parking_lot = "*"
thiserror = "*"
tokio = { version = "1", features = ["rt", "fs"] }
