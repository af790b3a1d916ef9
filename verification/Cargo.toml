[package]
name = "elucidator"
version = "0.1.0"
edition = "2021"
publish = false

[dependencies]
rand = "0.8"
rstar = "0.12"
rusqlite = { version = "0.31", features = ["bundled", "backup"] }
clap = { version = "4", features = ["derive"] }
libc = "0.2"
pyo3 = { version = "0.22", features = ["extension-module"] }
