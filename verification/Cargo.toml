[package]
name = "romtable"
version = "0.1.0"
edition = "2021"
publish = false

[dependencies]
jep106 = "0.2"
thiserror = "1"
