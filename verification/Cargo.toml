[package]
name = "odbc2parquet"
version = "0.1.0"
edition = "2021"
publish = false

[dependencies]
anyhow = "=1.0.104"
log = "=0.4.34"
odbc-api = { version = "=29.2.0", default-features = false, features = ["odbc_version_3_80", "vendored-unix-odbc"] }
parquet = { version = "=60.0.0", default-features = false }
