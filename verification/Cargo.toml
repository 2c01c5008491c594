[package]
name = "qingjian_windows"
version = "0.1.0"
edition = "2021"
publish = false

[dependencies]
png = "=0.18.1"
jiff = "=0.2.39"
thiserror = "=2.0.21"
windows-registry = "=0.100.0"
toml_edit = "*"
