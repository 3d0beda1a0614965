[package]
name = "sqlite_test_utils"
version = "0.1.0"
edition = "2021"
publish = false

[dependencies]
fastrand = "2"
rusqlite = "*"

[dev-dependencies]
mock_instant = "*"
tempfile = "3"
