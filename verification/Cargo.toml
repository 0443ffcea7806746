[package]
name = "nh"
version = "0.1.0"
edition = "2021"
publish = false

[dependencies]
ambassador = "*"
anstyle = "1"
clap = { version = "4", features = ["derive", "env"] }
clap_complete = "4"
color-eyre = "0.6"
humantime = "2"
