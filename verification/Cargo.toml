[package]
name = "geocoord"
version = "0.1.0"
edition = "2021"
publish = false

[dependencies]
proj = "*"
plotters-backend = "*"
thiserror = "*"
