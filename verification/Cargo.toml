[package]
name = "chief"
version = "1.0.0"
edition = "2021"
publish = false

[dependencies]
dotenv = "0.15"
log = "0.4"
simplelog = "0.12"
