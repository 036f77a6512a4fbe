[package]
name = "fit_file_native"
version = "0.1.0"
edition = "2021"
publish = false

[dependencies]
fitparser = "=0.11.0"
rustler = "=0.34.0"

[dev-dependencies]
chrono = "=0.4.45"
