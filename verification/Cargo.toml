[package]
name = "poly_logger"
version = "0.1.0"
edition = "2021"
publish = false

[dependencies]
chrono = "=0.4.45"
log = { version = "=0.4.34", features = ["std"] }
strfmt = "=0.2.6"
