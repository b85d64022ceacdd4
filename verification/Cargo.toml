[package]
name = "bcore"
version = "0.1.0"
edition = "2021"
publish = false

[dependencies]
ndarray = "*"
hdf5 = "*"
csv = "*"
serde = { version = "*", features = ["derive"] }
serde_json = "*"
thiserror = "*"
