[package]
name = "davif"
version = "0.1.0"
edition = "2021"
publish = false

[dependencies]
resize = "0.3"
png = "0.16"
clap = "2"
libavif-sys = { version = "*", default-features = false }
