[package]
name = "plpgsql_check_report"
version = "0.1.0"
edition = "2021"
publish = false

[dependencies]
postgres = "0.19"
