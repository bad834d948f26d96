[package]
name = "odbc_api"
version = "0.1.0"
edition = "2021"
publish = false

[dependencies]
odbc-sys = { version = "=0.31.0", features = ["vendored-unix-odbc"] }
